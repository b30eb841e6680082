use hoku_sdk::address::{get_delegated_address, parse_address, Address, AddressError};
use hoku_sdk::network::{Network, NetworkError, SubnetOptions};
use hoku_sdk::options::{poll_step, PollStep, QueryHeight, QueryOptions, TRANSACTION_RECEIPT_RETRIES};
use hoku_sdk::storage::{Storage, Usage};

const GATEWAY: [u8; 20] = [
    0x77, 0xaa, 0x40, 0xb1, 0x05, 0x84, 0x37, 0x28, 0x08, 0x8c, 0x01, 0x32, 0xe4, 0x3f, 0xc4, 0x43,
    0x48, 0x88, 0x1d, 0xa8,
];

#[test]
fn parses_eth_address_as_delegated() {
    let a = parse_address("0x77aa40b105843728088c0132e43fc44348881da8").unwrap();
    assert_eq!(a, Address::Delegated { namespace: 10, subaddress: GATEWAY.to_vec() });
    let b = parse_address("77AA40B105843728088C0132E43FC44348881DA8").unwrap();
    assert_eq!(a, b);
}

#[test]
fn rejects_malformed_eth_address() {
    assert_eq!(parse_address("0x77aa"), Err(AddressError::InvalidEthAddress));
    assert_eq!(
        parse_address("0xz7aa40b105843728088c0132e43fc44348881da8"),
        Err(AddressError::InvalidEthAddress)
    );
}

#[test]
fn has_parent_except_devnet() {
    assert!(Network::Mainnet.has_parent());
    assert!(Network::Testnet.has_parent());
    assert!(Network::Localnet.has_parent());
    assert!(Network::Ignition.has_parent());
    assert!(!Network::Devnet.has_parent());
}

#[test]
fn testnet_subnet_config() {
    let options = SubnetOptions { evm_rpc_timeout: 5, evm_rpc_auth_token: Some("t".to_string()) };
    let c = Network::Testnet.subnet_config(options).unwrap();
    assert_eq!(c.id, "/r314159/t410fvamrbjioufgzoyojg2x3nwdo26t6xucxoxl47yq");
    assert_eq!(c.provider_http, "https://evm-api.n1.hoku.sh");
    assert_eq!(c.provider_timeout, Some(5));
    assert_eq!(c.auth_token, Some("t".to_string()));
    assert_eq!(c.gateway_addr, Address::Delegated { namespace: 10, subaddress: GATEWAY.to_vec() });
    assert_eq!(c.supply_source, None);
}

#[test]
fn mainnet_is_pre_mainnet() {
    assert_eq!(Network::Mainnet.subnet_config(SubnetOptions::default()), Err(NetworkError::PreMainnet));
    assert_eq!(Network::Mainnet.rpc_url(), Err(NetworkError::PreMainnet));
    assert_eq!(Network::Mainnet.subnet_id(), Err(NetworkError::PreMainnet));
}

#[test]
fn parent_subnet_config_of_localnet() {
    let c = Network::Localnet.parent_subnet_config(SubnetOptions::default()).unwrap();
    assert_eq!(c.provider_http, "http://127.0.0.1:8545");
    assert_eq!(c.provider_timeout, Some(60));
    assert!(c.supply_source.is_some());
}

#[test]
fn devnet_has_no_parent_config() {
    assert_eq!(
        Network::Devnet.parent_subnet_config(SubnetOptions::default()),
        Err(NetworkError::NoParent)
    );
    assert_eq!(Network::Devnet.parent_evm_rpc_url(), Err(NetworkError::NoParent));
}

#[test]
fn urls_of_presets() {
    assert_eq!(Network::Devnet.rpc_url(), Ok("http://127.0.0.1:26657".to_string()));
    assert_eq!(Network::Ignition.object_api_url(), Ok("https://object-api-ignition-0.hoku.sh".to_string()));
    assert_eq!(Network::Devnet.evm_rpc_url(), Ok("http://127.0.0.1:8545".to_string()));
}

#[test]
fn network_names_round_trip() {
    for n in [Network::Mainnet, Network::Testnet, Network::Localnet, Network::Devnet, Network::Ignition] {
        assert_eq!(Network::from_name(&n.to_string()), Ok(n));
    }
    assert_eq!(Network::from_name("moonnet"), Err(NetworkError::UnknownNetwork));
    assert_eq!(Network::Ignition.to_string(), "ignition");
}

#[test]
fn query_options_default_delimiter() {
    let q = QueryOptions::default();
    assert_eq!(q.delimiter, "/");
    assert_eq!(q.prefix, "");
    assert_eq!(q.offset, 0);
    assert_eq!(q.limit, 0);
    assert_eq!(q.height, QueryHeight::Committed);
}

#[test]
fn receipt_poll_budget() {
    assert_eq!(poll_step(1, TRANSACTION_RECEIPT_RETRIES, true), PollStep::Received);
    assert_eq!(poll_step(1, TRANSACTION_RECEIPT_RETRIES, false), PollStep::Retry);
    assert_eq!(poll_step(200, TRANSACTION_RECEIPT_RETRIES, false), PollStep::Unavailable);
}

#[test]
fn unknown_account_has_no_usage() {
    assert_eq!(Storage::usage_of(None), Usage::default());
    let u = Usage { capacity_used: "42".to_string() };
    assert_eq!(Storage::usage_of(Some(u.clone())), u);
}

#[test]
fn delegated_address_unwraps_to_eth_bytes() {
    let a = parse_address("0x77aa40b105843728088c0132e43fc44348881da8").unwrap();
    assert_eq!(get_delegated_address(&a), Ok(GATEWAY.to_vec()));
    assert_eq!(get_delegated_address(&Address::Id(3)), Err(AddressError::NotEthAddress));
    let other = Address::Delegated { namespace: 12, subaddress: GATEWAY.to_vec() };
    assert_eq!(get_delegated_address(&other), Err(AddressError::NotEthAddress));
}
