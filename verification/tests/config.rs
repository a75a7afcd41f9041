use bridge_core::config::{
    AssetConfig, AssetMapping, ChainConfig, Config, RelayerConfig, ValidatorConfig,
};
use bridge_core::Error;

fn chain(id: &str, adapter_type: &str) -> ChainConfig {
    ChainConfig {
        id: id.to_string(),
        adapter_type: adapter_type.to_string(),
        name: format!("{} chain", id),
        rpc_url: format!("http://{}.example:9000", id),
        bridge_address: "0x1".to_string(),
        event_filters: vec![],
    }
}

fn base_config() -> Config {
    Config {
        chains: vec![chain("alpha", "sui"), chain("beta", "rooch")],
        assets: vec![AssetConfig {
            name: "coin".to_string(),
            native_chain: "alpha".to_string(),
            type_: "0x1::coin::Coin".to_string(),
            decimals: 9,
            mappings: vec![AssetMapping {
                chain_id: "beta".to_string(),
                asset_id: "0xbeef".to_string(),
            }],
        }],
        validators: vec![ValidatorConfig {
            address: "0xv1".to_string(),
            public_key: "00aaff".to_string(),
            weight: 1,
            chains: vec!["alpha".to_string()],
        }],
        relayer: RelayerConfig {
            poll_interval: 10,
            max_retries: 3,
            retry_delay: 2,
        },
    }
}

#[test]
fn valid_config_passes() {
    assert_eq!(base_config().validate(), Ok(()));
}

#[test]
fn rejects_duplicate_chain_ids() {
    let mut config = base_config();
    config.chains.push(chain("alpha", "rooch"));
    assert_eq!(config.validate(), Err(Error::Config));
}

#[test]
fn rejects_unknown_adapter_type() {
    let mut config = base_config();
    config.chains[0].adapter_type = "evm".to_string();
    assert_eq!(config.validate(), Err(Error::Config));
}

#[test]
fn rejects_asset_with_unknown_native_chain() {
    let mut config = base_config();
    config.assets[0].native_chain = "gamma".to_string();
    assert_eq!(config.validate(), Err(Error::Config));
}

#[test]
fn rejects_asset_mapping_to_unknown_chain() {
    let mut config = base_config();
    config.assets[0].mappings[0].chain_id = "gamma".to_string();
    assert_eq!(config.validate(), Err(Error::Config));
}

#[test]
fn rejects_validator_with_unknown_chain() {
    let mut config = base_config();
    config.validators[0].chains.push("gamma".to_string());
    assert_eq!(config.validate(), Err(Error::Config));
}

#[test]
fn rejects_non_hex_public_key() {
    let mut config = base_config();
    config.validators[0].public_key = "not-hex!".to_string();
    assert_eq!(config.validate(), Err(Error::Config));

    // An odd number of digits is not a byte string either.
    config.validators[0].public_key = "abc".to_string();
    assert_eq!(config.validate(), Err(Error::Config));

    // Uppercase digits are fine.
    config.validators[0].public_key = "ABCDEF".to_string();
    assert_eq!(config.validate(), Ok(()));
}

#[test]
fn rejects_zero_poll_interval() {
    let mut config = base_config();
    config.relayer.poll_interval = 0;
    assert_eq!(config.validate(), Err(Error::Config));
}

#[test]
fn rejects_zero_max_retries() {
    let mut config = base_config();
    config.relayer.max_retries = 0;
    assert_eq!(config.validate(), Err(Error::Config));
}

#[test]
fn get_chain_config_finds_each_configured_chain() {
    let config = base_config();
    for id in ["alpha", "beta"] {
        let found = config.get_chain_config(id).unwrap();
        assert_eq!(found.id, id);
    }
    assert!(config.get_chain_config("gamma").is_none());
    assert!(config.get_chain_config("").is_none());
}

#[test]
fn get_asset_config_by_name() {
    let config = base_config();
    let asset = config.get_asset_config("coin").unwrap();
    assert_eq!(asset.native_chain, "alpha");
    assert!(config.get_asset_config("gold").is_none());
}

#[test]
fn get_validators_for_chain_filters_by_coverage() {
    let mut config = base_config();
    config.validators.push(ValidatorConfig {
        address: "0xv2".to_string(),
        public_key: "1234".to_string(),
        weight: 2,
        chains: vec!["alpha".to_string(), "beta".to_string()],
    });

    let for_alpha = config.get_validators_for_chain("alpha");
    assert_eq!(for_alpha.len(), 2);
    assert_eq!(for_alpha[0].address, "0xv1");
    assert_eq!(for_alpha[1].address, "0xv2");

    let for_beta = config.get_validators_for_chain("beta");
    assert_eq!(for_beta.len(), 1);
    assert_eq!(for_beta[0].address, "0xv2");

    assert!(config.get_validators_for_chain("gamma").is_empty());
}
