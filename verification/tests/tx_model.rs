use cosm_tome::chain::error::ChainError;
use cosm_tome::modules::tx::error::TxError;
use cosm_tome::modules::tx::model::{BroadcastMode, RawTx};
use cosm_tome::proto::ProtoBroadcastMode;
use cosmrs::proto::cosmos::tx::v1beta1::TxRaw;
use cosmrs::proto::traits::Message;

#[test]
fn broadcast_modes_have_the_numbers_of_the_protocol() {
    assert_eq!(BroadcastMode::Block.number(), 1);
    assert_eq!(BroadcastMode::Sync.number(), 2);
    assert_eq!(BroadcastMode::Async.number(), 3);
    assert_eq!(BroadcastMode::try_from_i32(1), Ok(BroadcastMode::Block));
    assert_eq!(BroadcastMode::try_from_i32(2), Ok(BroadcastMode::Sync));
    assert_eq!(BroadcastMode::try_from_i32(3), Ok(BroadcastMode::Async));
    for v in [0, 4, -1, i32::MAX, i32::MIN] {
        assert_eq!(BroadcastMode::try_from_i32(v), Err(TxError::BroadcastMode { i: v }));
    }
    for mode in [BroadcastMode::Block, BroadcastMode::Sync, BroadcastMode::Async] {
        assert_eq!(BroadcastMode::try_from_i32(mode.number()), Ok(mode));
        assert_eq!(BroadcastMode::try_from_proto(mode.into_proto()), Ok(mode));
    }
}

#[test]
fn broadcast_modes_have_the_names_of_the_protocol() {
    assert_eq!(BroadcastMode::Block.as_ref(), "BROADCAST_MODE_BLOCK");
    assert_eq!(BroadcastMode::Sync.as_ref(), "BROADCAST_MODE_SYNC");
    assert_eq!(BroadcastMode::Async.as_ref(), "BROADCAST_MODE_ASYNC");
    assert_eq!(BroadcastMode::Sync.into_proto(), ProtoBroadcastMode::Sync);
    assert_eq!(
        BroadcastMode::try_from_proto(ProtoBroadcastMode::Unspecified),
        Err(TxError::BroadcastMode { i: 0 })
    );
}

#[test]
fn raw_tx_survives_encoding_and_decoding() {
    let cases: Vec<(Vec<u8>, Vec<u8>, Vec<Vec<u8>>)> = vec![
        (vec![], vec![], vec![]),
        (vec![1, 2, 3], vec![4, 5], vec![vec![6; 64]]),
        (vec![0; 300], vec![255; 2], vec![vec![], vec![1], vec![]]),
        (vec![], vec![9], vec![vec![]]),
    ];
    for (body, auth, sigs) in cases {
        let tx = RawTx::new(body.clone(), auth.clone(), sigs.clone());
        let bytes = tx.to_bytes().unwrap();
        let back = RawTx::from_bytes(&bytes).unwrap();
        assert_eq!(back, tx);
        assert_eq!(back.body_bytes(), &body);
        assert_eq!(back.auth_info_bytes(), &auth);
        assert_eq!(back.signatures(), &sigs);
        assert_eq!(back.to_bytes().unwrap(), bytes);
    }
}

#[test]
fn raw_tx_bytes_are_those_of_the_protocol() {
    let tx = RawTx::new(vec![1, 2, 3], vec![4, 5], vec![vec![6, 7]]);
    let direct = TxRaw { body_bytes: vec![1, 2, 3], auth_info_bytes: vec![4, 5], signatures: vec![vec![6, 7]] };
    let bytes = tx.to_bytes().unwrap();
    assert_eq!(bytes, direct.encode_to_vec());
    assert_eq!(bytes, vec![0x0a, 3, 1, 2, 3, 0x12, 2, 4, 5, 0x1a, 2, 6, 7]);
    assert_ne!(bytes, vec![1, 2, 3]);
}

#[test]
fn bytes_that_hold_no_transaction_are_a_decoding_error() {
    assert!(matches!(RawTx::from_bytes(&[0xff]), Err(ChainError::ProtoDecoding { .. })));
    assert!(matches!(RawTx::from_bytes(&[0x0a, 5, 1]), Err(ChainError::ProtoDecoding { .. })));
    assert_eq!(RawTx::from_bytes(&[]), Ok(RawTx::new(vec![], vec![], vec![])));
}
