//! The configuration of a chain for signing and fees.

use crate::chain::fee::Ratio;
use vstd::prelude::*;

verus! {

/// What a client has to know of a chain to sign for it and to pay it.
#[derive(Debug, PartialEq, Eq)]
pub struct ChainConfig {
    /// The denom in which fees are paid, such as `uatom`.
    pub denom: String,
    /// The prefix of the chain's addresses, such as `cosmos`.
    pub prefix: String,
    /// The id of the chain, such as `cosmoshub-4`.
    pub chain_id: String,
    /// The path along which keys are derived, such as `m/44'/118'/0'/0/0`.
    pub derivation_path: String,
    /// The price of one unit of gas, in the fee denom.
    pub gas_price: Ratio,
    /// The factor by which simulated gas is raised to get a gas limit.
    pub gas_adjustment: Ratio,
}

impl Clone for ChainConfig {
    fn clone(&self) -> (r: Self)
        ensures
            r.denom@ == self.denom@,
            r.prefix@ == self.prefix@,
            r.chain_id@ == self.chain_id@,
            r.derivation_path@ == self.derivation_path@,
            r.gas_price == self.gas_price,
            r.gas_adjustment == self.gas_adjustment,
    {
        ChainConfig {
            denom: self.denom.clone(),
            prefix: self.prefix.clone(),
            chain_id: self.chain_id.clone(),
            derivation_path: self.derivation_path.clone(),
            gas_price: self.gas_price,
            gas_adjustment: self.gas_adjustment,
        }
    }
}

} // verus!
