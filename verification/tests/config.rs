use cosm_tome::chain::error::ChainError;
use cosm_tome::chain::fee::Ratio;
use cosm_tome::config::config::ChainConfig;

fn cfg(rpc: Option<&str>, grpc: Option<&str>) -> ChainConfig {
    ChainConfig {
        denom: "utest".to_string(),
        prefix: "test".to_string(),
        chain_id: "test-1".to_string(),
        rpc_endpoint: rpc.map(str::to_string),
        grpc_endpoint: grpc.map(str::to_string),
        gas_prices: Ratio::from_decimal("0.1").unwrap(),
        gas_adjustment: Ratio::from_decimal("1.5").unwrap(),
    }
}

#[test]
fn a_configured_endpoint_is_handed_out() {
    let c = cfg(Some("localhost"), Some("http://localhost:9090"));
    assert_eq!(c.rpc_endpoint(), Ok(&"localhost".to_string()));
    assert_eq!(c.grpc_endpoint(), Ok(&"http://localhost:9090".to_string()));
    assert_eq!(c.clone(), c);
}

#[test]
fn a_missing_endpoint_is_told_by_its_transport() {
    let c = cfg(Some("localhost"), None);
    assert!(c.rpc_endpoint().is_ok());
    assert_eq!(
        c.grpc_endpoint(),
        Err(ChainError::MissingApiEndpoint { api_type: "cosmos_grpc".to_string() })
    );
    let c = cfg(None, None);
    assert_eq!(
        c.rpc_endpoint(),
        Err(ChainError::MissingApiEndpoint { api_type: "tendermint_rpc".to_string() })
    );
}

#[test]
fn the_signing_part_keeps_the_factors() {
    let signing = cfg(None, None).signing("m/44'/118'/0'/0/0".to_string());
    assert_eq!(signing.denom, "utest");
    assert_eq!(signing.prefix, "test");
    assert_eq!(signing.chain_id, "test-1");
    assert_eq!(signing.derivation_path, "m/44'/118'/0'/0/0");
    assert_eq!(signing.gas_price, Ratio::new(1, 10).unwrap());
    assert_eq!(signing.gas_adjustment, Ratio::new(15, 10).unwrap());
    assert_eq!(signing.clone(), signing);
}
