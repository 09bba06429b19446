//! Where the consensus queries go.

use vstd::prelude::*;

verus! {

/// The path of the query for the latest block.
pub const LATEST_BLOCK_PATH: &'static str = "/cosmos.base.tendermint.v1beta1.Service/GetLatestBlock";

/// The path of the query for the validators of the latest block.
pub const LATEST_VALIDATOR_SET_PATH: &'static str =
    "/cosmos.base.tendermint.v1beta1.Service/GetLatestValidatorSet";

/// The path of the query for the validators at a height.
pub const VALIDATOR_SET_BY_HEIGHT_PATH: &'static str =
    "/cosmos.base.tendermint.v1beta1.Service/GetValidatorSetByHeight";

/// The height of a query for the validator set at `block_height`, as the
/// message carries it: the same bits as a signed number.
pub open spec fn bits_as_i64(x: u64) -> i64 {
    if x <= 0x7fff_ffff_ffff_ffff {
        x as i64
    } else {
        (x - 0x1_0000_0000_0000_0000) as i64
    }
}

/// The height of a query for the validator set at `block_height`, as the
/// message carries it.
pub fn query_height(block_height: u64) -> (h: i64)
    ensures
        h == bits_as_i64(block_height),
{
    if block_height <= 0x7fff_ffff_ffff_ffff {
        block_height as i64
    } else {
        let low: u64 = block_height - 0x8000_0000_0000_0000u64;
        (low as i64) + i64::MIN
    }
}

} // verus!
