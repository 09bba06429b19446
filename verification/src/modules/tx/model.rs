//! Broadcast modes and raw transactions.

use crate::chain::error::ChainError;
use crate::modules::tx::error::TxError;
use crate::proto::ProtoBroadcastMode;
use crate::sdk::{tx_raw_decoding, tx_raw_encoding, tx_raw_from_bytes, tx_raw_to_bytes};
use vstd::prelude::*;

verus! {

/// How long a client waits when it hands in a transaction, and what it
/// learns.
///
/// `Block` waits until the transaction is in a block and reports its
/// execution; newer chains no longer offer it. `Sync` waits for the
/// admission check only. `Async` does not wait at all.
#[derive(Copy, Clone, Debug, PartialEq, Eq, Structural, PartialOrd, Ord, Hash)]
pub enum BroadcastMode {
    Block,
    Sync,
    Async,
}

/// The number that selects `mode` on the wire.
pub open spec fn mode_number(mode: BroadcastMode) -> i32 {
    match mode {
        BroadcastMode::Block => 1,
        BroadcastMode::Sync => 2,
        BroadcastMode::Async => 3,
    }
}

impl BroadcastMode {
    /// The number that selects this mode on the wire.
    pub fn number(self) -> (n: i32)
        ensures
            n == mode_number(self),
    {
        match self {
            BroadcastMode::Block => 1,
            BroadcastMode::Sync => 2,
            BroadcastMode::Async => 3,
        }
    }

    /// The name of this mode in the protocol's definition.
    pub fn as_ref(&self) -> (s: &'static str)
        ensures
            *self == BroadcastMode::Block ==> s@ == "BROADCAST_MODE_BLOCK"@,
            *self == BroadcastMode::Sync ==> s@ == "BROADCAST_MODE_SYNC"@,
            *self == BroadcastMode::Async ==> s@ == "BROADCAST_MODE_ASYNC"@,
    {
        match self {
            BroadcastMode::Block => "BROADCAST_MODE_BLOCK",
            BroadcastMode::Sync => "BROADCAST_MODE_SYNC",
            BroadcastMode::Async => "BROADCAST_MODE_ASYNC",
        }
    }

    /// The mode that the number `v` selects; a number that selects none is
    /// refused under its own value.
    pub fn try_from_i32(v: i32) -> (r: Result<BroadcastMode, TxError>)
        ensures
            1 <= v <= 3 ==> (r matches Ok(m) && mode_number(m) == v),
            !(1 <= v <= 3) ==> r == Err::<BroadcastMode, TxError>(TxError::BroadcastMode { i: v }),
    {
        if v == 1 {
            Ok(BroadcastMode::Block)
        } else if v == 2 {
            Ok(BroadcastMode::Sync)
        } else if v == 3 {
            Ok(BroadcastMode::Async)
        } else {
            Err(TxError::BroadcastMode { i: v })
        }
    }

    /// This mode in the protocol's own enumeration.
    pub fn into_proto(self) -> (r: ProtoBroadcastMode)
        ensures
            r == match self {
                BroadcastMode::Block => ProtoBroadcastMode::Block,
                BroadcastMode::Sync => ProtoBroadcastMode::Sync,
                BroadcastMode::Async => ProtoBroadcastMode::Async,
            },
    {
        match self {
            BroadcastMode::Block => ProtoBroadcastMode::Block,
            BroadcastMode::Sync => ProtoBroadcastMode::Sync,
            BroadcastMode::Async => ProtoBroadcastMode::Async,
        }
    }

    /// Reads a mode of the protocol's enumeration; `Unspecified` selects no
    /// mode and is refused as the number zero.
    pub fn try_from_proto(mode: ProtoBroadcastMode) -> (r: Result<BroadcastMode, TxError>)
        ensures
            r == match mode {
                ProtoBroadcastMode::Block => Ok::<BroadcastMode, TxError>(BroadcastMode::Block),
                ProtoBroadcastMode::Sync => Ok::<BroadcastMode, TxError>(BroadcastMode::Sync),
                ProtoBroadcastMode::Async => Ok::<BroadcastMode, TxError>(BroadcastMode::Async),
                ProtoBroadcastMode::Unspecified => Err::<BroadcastMode, TxError>(
                    TxError::BroadcastMode { i: 0 },
                ),
            },
    {
        match mode {
            ProtoBroadcastMode::Block => Ok(BroadcastMode::Block),
            ProtoBroadcastMode::Sync => Ok(BroadcastMode::Sync),
            ProtoBroadcastMode::Async => Ok(BroadcastMode::Async),
            ProtoBroadcastMode::Unspecified => Err(TxError::BroadcastMode { i: 0 }),
        }
    }
}

/// A mode is found again from its number, and no two modes share one.
pub proof fn lemma_mode_number_injective(a: BroadcastMode, b: BroadcastMode)
    ensures
        1 <= mode_number(a) <= 3,
        mode_number(a) == mode_number(b) ==> a == b,
{
}

/// A signed transaction, ready to be handed to a node: the encoded body,
/// the encoded auth info, and the signatures over them.
#[derive(Debug, PartialEq, Eq)]
pub struct RawTx {
    body_bytes: Vec<u8>,
    auth_info_bytes: Vec<u8>,
    signatures: Vec<Vec<u8>>,
}

/// What a raw transaction holds: the bytes of its two halves, and its
/// signatures.
pub struct RawTxView {
    pub body_bytes: Seq<u8>,
    pub auth_info_bytes: Seq<u8>,
    pub signatures: Seq<Seq<u8>>,
}

impl DeepView for RawTx {
    type V = RawTxView;

    closed spec fn deep_view(&self) -> RawTxView {
        RawTxView {
            body_bytes: self.body_bytes@,
            auth_info_bytes: self.auth_info_bytes@,
            signatures: self.signatures.deep_view(),
        }
    }
}

impl View for RawTx {
    type V = RawTxView;

    open spec fn view(&self) -> RawTxView {
        self.deep_view()
    }
}

/// The bytes that the raw transaction `tx` is sent as, or `None` where it
/// cannot be encoded.
pub open spec fn raw_tx_bytes(tx: RawTxView) -> Option<Seq<u8>> {
    tx_raw_encoding(tx.body_bytes, tx.auth_info_bytes, tx.signatures)
}

/// The raw transaction that `bytes` hold, or `None` where they hold none.
pub open spec fn raw_tx_of_bytes(bytes: Seq<u8>) -> Option<RawTxView> {
    match tx_raw_decoding(bytes) {
        Some(parts) => Some(
            RawTxView { body_bytes: parts.0, auth_info_bytes: parts.1, signatures: parts.2 },
        ),
        None => None,
    }
}

impl RawTx {
    /// A raw transaction of these parts.
    pub fn new(body_bytes: Vec<u8>, auth_info_bytes: Vec<u8>, signatures: Vec<Vec<u8>>) -> (tx: RawTx)
        ensures
            tx@.body_bytes == body_bytes@,
            tx@.auth_info_bytes == auth_info_bytes@,
            tx@.signatures == signatures.deep_view(),
    {
        RawTx { body_bytes, auth_info_bytes, signatures }
    }

    /// The encoded body.
    pub fn body_bytes(&self) -> (b: &Vec<u8>)
        ensures
            b@ == self@.body_bytes,
    {
        &self.body_bytes
    }

    /// The encoded auth info.
    pub fn auth_info_bytes(&self) -> (b: &Vec<u8>)
        ensures
            b@ == self@.auth_info_bytes,
    {
        &self.auth_info_bytes
    }

    /// The signatures, in the order of the signers.
    pub fn signatures(&self) -> (s: &Vec<Vec<u8>>)
        ensures
            s.deep_view() == self@.signatures,
    {
        &self.signatures
    }

    /// Reads a raw transaction from its protobuf bytes; bytes that hold
    /// none are a decoding error.
    pub fn from_bytes(bytes: &[u8]) -> (r: Result<RawTx, ChainError>)
        ensures
            match raw_tx_of_bytes(bytes@) {
                Some(view) => r matches Ok(tx) && tx@ == view,
                None => r matches Err(ChainError::ProtoDecoding { .. }),
            },
    {
        match tx_raw_from_bytes(bytes) {
            Ok(parts) => Ok(
                RawTx { body_bytes: parts.0, auth_info_bytes: parts.1, signatures: parts.2 },
            ),
            Err(message) => Err(ChainError::ProtoDecoding { message }),
        }
    }

    /// Writes the raw transaction as protobuf bytes. The bytes that come
    /// out hold this transaction: read back, they give its parts again.
    pub fn to_bytes(&self) -> (r: Result<Vec<u8>, ChainError>)
        ensures
            match raw_tx_bytes(self@) {
                Some(bytes) => r matches Ok(b) && b@ == bytes && raw_tx_of_bytes(b@) == Some(self@),
                None => r matches Err(ChainError::ProtoEncoding { .. }),
            },
    {
        match tx_raw_to_bytes(&self.body_bytes, &self.auth_info_bytes, &self.signatures) {
            Ok(bytes) => Ok(bytes),
            Err(message) => Err(ChainError::ProtoEncoding { message }),
        }
    }
}

} // verus!
