use vstd::prelude::*;

use crate::address::{is_eth_address_of, is_eth_text, parse_address, Address};
use crate::text::str_eq;

verus! {

pub const TESTNET_SUBNET_ID: &'static str = "/r314159/t410fvamrbjioufgzoyojg2x3nwdo26t6xucxoxl47yq";
pub const LOCALNET_SUBNET_ID: &'static str = "/r31337/t410fkzrz3mlkyufisiuae3scumllgalzuu3wxlxa2ly";
pub const DEVNET_SUBNET_ID: &'static str = "test";
pub const IGNITION_SUBNET_ID: &'static str = "/r314159/t410f2x3jiwcg6ju4bvy2lpdzc6xjo5okoktdm63mwni";

pub const TESTNET_RPC_URL: &'static str = "https://api.n1.hoku.sh";
pub const LOCALNET_RPC_URL: &'static str = "http://127.0.0.1:26657";
pub const IGNITION_RPC_URL: &'static str = "https://api-ignition-0.hoku.sh";

/// Default EVM RPC request timeout, in seconds.
pub const RPC_TIMEOUT_SECS: u64 = 60;

pub const TESTNET_EVM_RPC_URL: &'static str = "https://evm-api.n1.hoku.sh";
pub const LOCALNET_EVM_RPC_URL: &'static str = "http://127.0.0.1:8645";
pub const IGNITION_EVM_RPC_URL: &'static str = "https://evm-ignition-0.hoku.sh";
pub const DEVNET_EVM_RPC_URL: &'static str = "http://127.0.0.1:8545";

pub const TESTNET_EVM_GATEWAY_ADDRESS: &'static str = "0x77aa40b105843728088c0132e43fc44348881da8";
pub const TESTNET_EVM_REGISTRY_ADDRESS: &'static str = "0x74539671a1d2f1c8f200826baba665179f53a1b7";
pub const TESTNET_EVM_SUPPLY_SOURCE_ADDRESS: &'static str = "0x8e3Fd2b47e564E7D636Fa80082f286eD038BE54b";
pub const LOCALNET_EVM_GATEWAY_ADDRESS: &'static str = "0x77aa40b105843728088c0132e43fc44348881da8";
pub const LOCALNET_EVM_REGISTRY_ADDRESS: &'static str = "0x74539671a1d2f1c8f200826baba665179f53a1b7";
pub const LOCALNET_EVM_SUPPLY_SOURCE_ADDRESS: &'static str = "0xE6E340D132b5f46d1e472DebcD681B2aBc16e57E";
pub const IGNITION_EVM_GATEWAY_ADDRESS: &'static str = "0x77aa40b105843728088c0132e43fc44348881da8";
pub const IGNITION_EVM_REGISTRY_ADDRESS: &'static str = "0x74539671a1d2f1c8f200826baba665179f53a1b7";
pub const IGNITION_EVM_SUPPLY_SOURCE_ADDRESS: &'static str = "0x20d8a696091153c4d4816ba1fdefe113f71e0905";
pub const DEVNET_EVM_GATEWAY_ADDRESS: &'static str = "0x77aa40b105843728088c0132e43fc44348881da8";
pub const DEVNET_EVM_REGISTRY_ADDRESS: &'static str = "0x74539671a1d2f1c8f200826baba665179f53a1b7";

pub const TESTNET_PARENT_EVM_RPC_URL: &'static str = "https://api.calibration.node.glif.io/rpc/v1";
pub const TESTNET_PARENT_EVM_GATEWAY_ADDRESS: &'static str = "0xe17B86E7BEFC691DAEfe2086e56B86D4253f3294";
pub const TESTNET_PARENT_EVM_REGISTRY_ADDRESS: &'static str = "0xe87AFBEC26f0fdAC69e4256dC1935bEab1e0855E";
pub const LOCALNET_PARENT_EVM_RPC_URL: &'static str = "http://127.0.0.1:8545";
pub const LOCALNET_PARENT_EVM_GATEWAY_ADDRESS: &'static str = "0x9A676e781A523b5d0C0e43731313A708CB607508";
pub const LOCALNET_PARENT_EVM_REGISTRY_ADDRESS: &'static str = "0x4ed7c70F96B99c776995fB64377f0d4aB3B0e1C1";
pub const IGNITION_PARENT_EVM_RPC_URL: &'static str = "https://api.calibration.node.glif.io/rpc/v1";
pub const IGNITION_PARENT_EVM_GATEWAY_ADDRESS: &'static str = "0xF8Abf46A1114d3B44d18F2A96D850e36FC6Ee94E";
pub const IGNITION_PARENT_EVM_REGISTRY_ADDRESS: &'static str = "0x0bb143a180b61ae6b1872bbf99dBe261A2aDde40";

pub const TESTNET_OBJECT_API_URL: &'static str = "https://object-api.n1.hoku.sh";
pub const LOCALNET_OBJECT_API_URL: &'static str = "http://127.0.0.1:8001";
pub const IGNITION_OBJECT_API_URL: &'static str = "https://object-api-ignition-0.hoku.sh";

/// Why a network preset has no value.
#[derive(Debug, Clone, Copy, PartialEq, Eq)]
pub enum NetworkError {
    /// Mainnet has not launched.
    PreMainnet,
    /// The network has no parent chain.
    NoParent,
    /// A preset address is not a valid address.
    InvalidAddress,
    /// The name is none of the presets.
    UnknownNetwork,
}

/// The address network that a preset's textual addresses belong to.
#[derive(Debug, Clone, Copy, PartialEq, Eq)]
pub enum AddressNetwork {
    Mainnet,
    Testnet,
}

/// Options for EVM subnet configurations.
#[derive(Debug, Clone, PartialEq, Eq)]
pub struct SubnetOptions {
    /// The EVM RPC provider request timeout, in seconds.
    pub evm_rpc_timeout: u64,
    /// The EVM RPC provider authorization token.
    pub evm_rpc_auth_token: Option<String>,
}

impl Default for SubnetOptions {
    fn default() -> (r: SubnetOptions)
        ensures
            r.evm_rpc_timeout == RPC_TIMEOUT_SECS,
            r.evm_rpc_auth_token is None,
    {
        SubnetOptions { evm_rpc_timeout: RPC_TIMEOUT_SECS, evm_rpc_auth_token: None }
    }
}

/// The configuration of an EVM subnet: its identity, endpoint and contracts.
#[derive(Debug, Clone, PartialEq, Eq)]
pub struct EvmSubnet {
    /// The textual subnet ID.
    pub id: String,
    pub provider_http: String,
    /// Request timeout, in seconds.
    pub provider_timeout: Option<u64>,
    pub auth_token: Option<String>,
    pub registry_addr: Address,
    pub gateway_addr: Address,
    pub supply_source: Option<Address>,
}

/// Network presets for a subnet configuration and RPC URLs.
#[derive(Debug, Clone, Copy, PartialEq, Eq, PartialOrd, Ord)]
pub enum Network {
    /// Network presets for mainnet.
    Mainnet,
    /// Network presets for Calibration (default pre-mainnet).
    Testnet,
    /// Network presets for a local three-node network.
    Localnet,
    /// Network presets for local development.
    Devnet,
    /// Network presets for Ignition testnet.
    Ignition,
}

/// A preset text of `n`: `Err(PreMainnet)` on mainnet.
pub open spec fn preset(
    n: Network,
    testnet: &str,
    localnet: &str,
    devnet: &str,
    ignition: &str,
) -> Result<Seq<char>, NetworkError> {
    match n {
        Network::Mainnet => Err(NetworkError::PreMainnet),
        Network::Testnet => Ok(testnet@),
        Network::Localnet => Ok(localnet@),
        Network::Devnet => Ok(devnet@),
        Network::Ignition => Ok(ignition@),
    }
}

/// A preset text of the parent of `n`: `Err(PreMainnet)` on mainnet,
/// `Err(NoParent)` on devnet.
pub open spec fn parent_preset(
    n: Network,
    testnet: &str,
    localnet: &str,
    ignition: &str,
) -> Result<Seq<char>, NetworkError> {
    match n {
        Network::Devnet => Err(NetworkError::NoParent),
        _ => preset(n, testnet, localnet, testnet, ignition),
    }
}

pub open spec fn subnet_id_text(n: Network) -> Result<Seq<char>, NetworkError> {
    preset(n, TESTNET_SUBNET_ID, LOCALNET_SUBNET_ID, DEVNET_SUBNET_ID, IGNITION_SUBNET_ID)
}

pub open spec fn rpc_url_text(n: Network) -> Result<Seq<char>, NetworkError> {
    preset(n, TESTNET_RPC_URL, LOCALNET_RPC_URL, LOCALNET_RPC_URL, IGNITION_RPC_URL)
}

pub open spec fn object_api_url_text(n: Network) -> Result<Seq<char>, NetworkError> {
    preset(
        n,
        TESTNET_OBJECT_API_URL,
        LOCALNET_OBJECT_API_URL,
        LOCALNET_OBJECT_API_URL,
        IGNITION_OBJECT_API_URL,
    )
}

pub open spec fn evm_rpc_url_text(n: Network) -> Result<Seq<char>, NetworkError> {
    preset(n, TESTNET_EVM_RPC_URL, LOCALNET_EVM_RPC_URL, DEVNET_EVM_RPC_URL, IGNITION_EVM_RPC_URL)
}

pub open spec fn evm_gateway_text(n: Network) -> Result<Seq<char>, NetworkError> {
    preset(
        n,
        TESTNET_EVM_GATEWAY_ADDRESS,
        LOCALNET_EVM_GATEWAY_ADDRESS,
        DEVNET_EVM_GATEWAY_ADDRESS,
        IGNITION_EVM_GATEWAY_ADDRESS,
    )
}

pub open spec fn evm_registry_text(n: Network) -> Result<Seq<char>, NetworkError> {
    preset(
        n,
        TESTNET_EVM_REGISTRY_ADDRESS,
        LOCALNET_EVM_REGISTRY_ADDRESS,
        DEVNET_EVM_REGISTRY_ADDRESS,
        IGNITION_EVM_REGISTRY_ADDRESS,
    )
}

pub open spec fn parent_evm_rpc_url_text(n: Network) -> Result<Seq<char>, NetworkError> {
    parent_preset(
        n,
        TESTNET_PARENT_EVM_RPC_URL,
        LOCALNET_PARENT_EVM_RPC_URL,
        IGNITION_PARENT_EVM_RPC_URL,
    )
}

pub open spec fn parent_evm_gateway_text(n: Network) -> Result<Seq<char>, NetworkError> {
    parent_preset(
        n,
        TESTNET_PARENT_EVM_GATEWAY_ADDRESS,
        LOCALNET_PARENT_EVM_GATEWAY_ADDRESS,
        IGNITION_PARENT_EVM_GATEWAY_ADDRESS,
    )
}

pub open spec fn parent_evm_registry_text(n: Network) -> Result<Seq<char>, NetworkError> {
    parent_preset(
        n,
        TESTNET_PARENT_EVM_REGISTRY_ADDRESS,
        LOCALNET_PARENT_EVM_REGISTRY_ADDRESS,
        IGNITION_PARENT_EVM_REGISTRY_ADDRESS,
    )
}

pub open spec fn parent_evm_supply_source_text(n: Network) -> Result<Seq<char>, NetworkError> {
    parent_preset(
        n,
        TESTNET_EVM_SUPPLY_SOURCE_ADDRESS,
        LOCALNET_EVM_SUPPLY_SOURCE_ADDRESS,
        IGNITION_EVM_SUPPLY_SOURCE_ADDRESS,
    )
}

/// `r` is the text `t` as a `String`, or its error.
pub open spec fn text_result(t: Result<Seq<char>, NetworkError>, r: Result<String, NetworkError>) -> bool {
    match t {
        Ok(s) => r is Ok && r->Ok_0@ == s,
        Err(e) => r == Err::<String, NetworkError>(e),
    }
}

/// `a` is the address that the text `s` denotes.
pub open spec fn address_of_text(a: Address, s: Seq<char>) -> bool {
    is_eth_address_of(Ok(a), s)
}

/// `r` is the address that the text `t` denotes, or its error.
pub open spec fn address_result(t: Result<Seq<char>, NetworkError>, r: Result<Address, NetworkError>) -> bool {
    match t {
        Ok(s) => if is_eth_text(s) {
            r is Ok && address_of_text(r->Ok_0, s)
        } else {
            r == Err::<Address, NetworkError>(NetworkError::InvalidAddress)
        },
        Err(e) => r == Err::<Address, NetworkError>(e),
    }
}

fn owned(t: Result<&str, NetworkError>) -> (r: Result<String, NetworkError>)
    ensures
        match t {
            Ok(s) => r is Ok && r->Ok_0@ == s@,
            Err(e) => r == Err::<String, NetworkError>(e),
        },
{
    match t {
        Ok(s) => Ok(s.to_owned()),
        Err(e) => Err(e),
    }
}

fn address(t: Result<&str, NetworkError>) -> (r: Result<Address, NetworkError>)
    ensures
        match t {
            Ok(s) => address_result(Ok(s@), r),
            Err(e) => r == Err::<Address, NetworkError>(e),
        },
{
    match t {
        Ok(s) => match parse_address(s) {
            Ok(a) => Ok(a),
            Err(_) => Err(NetworkError::InvalidAddress),
        },
        Err(e) => Err(e),
    }
}

impl Network {
    /// The network's name.
    pub open spec fn name(self) -> Seq<char> {
        match self {
            Network::Mainnet => "mainnet"@,
            Network::Testnet => "testnet"@,
            Network::Localnet => "localnet"@,
            Network::Devnet => "devnet"@,
            Network::Ignition => "ignition"@,
        }
    }

    /// The preset whose name is `s`.
    pub fn from_name(s: &str) -> (r: Result<Network, NetworkError>)
        ensures
            r is Ok ==> r->Ok_0.name() == s@,
            r is Err ==> r == Err::<Network, NetworkError>(NetworkError::UnknownNetwork) && (forall|
                n: Network,
            | n.name() != s@),
    {
        if str_eq(s, "mainnet") {
            Ok(Network::Mainnet)
        } else if str_eq(s, "testnet") {
            Ok(Network::Testnet)
        } else if str_eq(s, "localnet") {
            Ok(Network::Localnet)
        } else if str_eq(s, "devnet") {
            Ok(Network::Devnet)
        } else if str_eq(s, "ignition") {
            Ok(Network::Ignition)
        } else {
            Err(NetworkError::UnknownNetwork)
        }
    }

    /// The network's name.
    pub fn to_string(&self) -> (r: String)
        ensures
            r@ == self.name(),
    {
        match self {
            Network::Mainnet => "mainnet".to_owned(),
            Network::Testnet => "testnet".to_owned(),
            Network::Localnet => "localnet".to_owned(),
            Network::Devnet => "devnet".to_owned(),
            Network::Ignition => "ignition".to_owned(),
        }
    }

    /// The address network that the preset's addresses belong to.
    pub fn address_network(&self) -> (r: AddressNetwork)
        ensures
            (r == AddressNetwork::Mainnet) == (*self == Network::Mainnet),
    {
        match self {
            Network::Mainnet => AddressNetwork::Mainnet,
            _ => AddressNetwork::Testnet,
        }
    }

    /// The textual subnet ID.
    pub fn subnet_id(&self) -> (r: Result<String, NetworkError>)
        ensures
            text_result(subnet_id_text(*self), r),
    {
        owned(
            match self {
                Network::Mainnet => Err(NetworkError::PreMainnet),
                Network::Testnet => Ok(TESTNET_SUBNET_ID),
                Network::Localnet => Ok(LOCALNET_SUBNET_ID),
                Network::Devnet => Ok(DEVNET_SUBNET_ID),
                Network::Ignition => Ok(IGNITION_SUBNET_ID),
            },
        )
    }

    /// The EVM subnet configuration of the network.
    pub fn subnet_config(&self, options: SubnetOptions) -> (r: Result<EvmSubnet, NetworkError>)
        ensures
            *self == Network::Mainnet ==> r == Err::<EvmSubnet, NetworkError>(
                NetworkError::PreMainnet,
            ),
            *self != Network::Mainnet ==> (r is Ok <==> (is_eth_text(
                evm_registry_text(*self)->Ok_0,
            ) && is_eth_text(evm_gateway_text(*self)->Ok_0))),
            r is Err && *self != Network::Mainnet ==> r == Err::<EvmSubnet, NetworkError>(
                NetworkError::InvalidAddress,
            ),
            r is Ok ==> ({
                let c = r->Ok_0;
                &&& c.id@ == subnet_id_text(*self)->Ok_0
                &&& c.provider_http@ == evm_rpc_url_text(*self)->Ok_0
                &&& c.provider_timeout == Some(options.evm_rpc_timeout)
                &&& c.auth_token == options.evm_rpc_auth_token
                &&& address_of_text(c.registry_addr, evm_registry_text(*self)->Ok_0)
                &&& address_of_text(c.gateway_addr, evm_gateway_text(*self)->Ok_0)
                &&& c.supply_source is None
            }),
    {
        let id = match self.subnet_id() {
            Ok(v) => v,
            Err(e) => {
                return Err(e);
            },
        };
        let provider_http = match self.evm_rpc_url() {
            Ok(v) => v,
            Err(e) => {
                return Err(e);
            },
        };
        let registry_addr = match self.evm_registry() {
            Ok(v) => v,
            Err(e) => {
                return Err(e);
            },
        };
        let gateway_addr = match self.evm_gateway() {
            Ok(v) => v,
            Err(e) => {
                return Err(e);
            },
        };
        Ok(
            EvmSubnet {
                id,
                provider_http,
                provider_timeout: Some(options.evm_rpc_timeout),
                auth_token: options.evm_rpc_auth_token,
                registry_addr,
                gateway_addr,
                supply_source: None,
            },
        )
    }

    /// Whether the network has a parent chain.
    pub fn has_parent(&self) -> (r: bool)
        ensures
            r == (*self != Network::Devnet),
    {
        match self {
            Network::Mainnet => true,
            Network::Testnet => true,
            Network::Localnet => true,
            Network::Ignition => true,
            Network::Devnet => false,
        }
    }

    /// The URL of the CometBFT RPC API.
    pub fn rpc_url(&self) -> (r: Result<String, NetworkError>)
        ensures
            text_result(rpc_url_text(*self), r),
    {
        owned(
            match self {
                Network::Mainnet => Err(NetworkError::PreMainnet),
                Network::Testnet => Ok(TESTNET_RPC_URL),
                Network::Localnet | Network::Devnet => Ok(LOCALNET_RPC_URL),
                Network::Ignition => Ok(IGNITION_RPC_URL),
            },
        )
    }

    /// The URL of the Object API.
    pub fn object_api_url(&self) -> (r: Result<String, NetworkError>)
        ensures
            text_result(object_api_url_text(*self), r),
    {
        owned(
            match self {
                Network::Mainnet => Err(NetworkError::PreMainnet),
                Network::Testnet => Ok(TESTNET_OBJECT_API_URL),
                Network::Localnet | Network::Devnet => Ok(LOCALNET_OBJECT_API_URL),
                Network::Ignition => Ok(IGNITION_OBJECT_API_URL),
            },
        )
    }

    /// The URL of the EVM RPC API.
    pub fn evm_rpc_url(&self) -> (r: Result<String, NetworkError>)
        ensures
            text_result(evm_rpc_url_text(*self), r),
    {
        owned(
            match self {
                Network::Mainnet => Err(NetworkError::PreMainnet),
                Network::Testnet => Ok(TESTNET_EVM_RPC_URL),
                Network::Localnet => Ok(LOCALNET_EVM_RPC_URL),
                Network::Devnet => Ok(DEVNET_EVM_RPC_URL),
                Network::Ignition => Ok(IGNITION_EVM_RPC_URL),
            },
        )
    }

    /// The address of the EVM Gateway contract.
    pub fn evm_gateway(&self) -> (r: Result<Address, NetworkError>)
        ensures
            address_result(evm_gateway_text(*self), r),
    {
        address(
            match self {
                Network::Mainnet => Err(NetworkError::PreMainnet),
                Network::Testnet => Ok(TESTNET_EVM_GATEWAY_ADDRESS),
                Network::Localnet => Ok(LOCALNET_EVM_GATEWAY_ADDRESS),
                Network::Devnet => Ok(DEVNET_EVM_GATEWAY_ADDRESS),
                Network::Ignition => Ok(IGNITION_EVM_GATEWAY_ADDRESS),
            },
        )
    }

    /// The address of the EVM Registry contract.
    pub fn evm_registry(&self) -> (r: Result<Address, NetworkError>)
        ensures
            address_result(evm_registry_text(*self), r),
    {
        address(
            match self {
                Network::Mainnet => Err(NetworkError::PreMainnet),
                Network::Testnet => Ok(TESTNET_EVM_REGISTRY_ADDRESS),
                Network::Localnet => Ok(LOCALNET_EVM_REGISTRY_ADDRESS),
                Network::Devnet => Ok(DEVNET_EVM_REGISTRY_ADDRESS),
                Network::Ignition => Ok(IGNITION_EVM_REGISTRY_ADDRESS),
            },
        )
    }

    /// The EVM subnet configuration of the network's parent chain.
    pub fn parent_subnet_config(&self, options: SubnetOptions) -> (r: Result<
        EvmSubnet,
        NetworkError,
    >)
        ensures
            *self == Network::Mainnet ==> r == Err::<EvmSubnet, NetworkError>(
                NetworkError::PreMainnet,
            ),
            *self == Network::Devnet ==> r == Err::<EvmSubnet, NetworkError>(
                NetworkError::NoParent,
            ),
            *self != Network::Mainnet && *self != Network::Devnet ==> (r is Ok <==> (is_eth_text(
                parent_evm_registry_text(*self)->Ok_0,
            ) && is_eth_text(parent_evm_gateway_text(*self)->Ok_0) && is_eth_text(
                parent_evm_supply_source_text(*self)->Ok_0,
            ))),
            r is Err && *self != Network::Mainnet && *self != Network::Devnet ==> r == Err::<
                EvmSubnet,
                NetworkError,
            >(NetworkError::InvalidAddress),
            r is Ok ==> ({
                let c = r->Ok_0;
                &&& c.id@ == subnet_id_text(*self)->Ok_0
                &&& c.provider_http@ == parent_evm_rpc_url_text(*self)->Ok_0
                &&& c.provider_timeout == Some(options.evm_rpc_timeout)
                &&& c.auth_token == options.evm_rpc_auth_token
                &&& address_of_text(c.registry_addr, parent_evm_registry_text(*self)->Ok_0)
                &&& address_of_text(c.gateway_addr, parent_evm_gateway_text(*self)->Ok_0)
                &&& c.supply_source is Some
                &&& address_of_text(
                    c.supply_source->0,
                    parent_evm_supply_source_text(*self)->Ok_0,
                )
            }),
    {
        let id = match self.subnet_id() {
            Ok(v) => v,
            Err(e) => {
                return Err(e);
            },
        };
        let provider_http = match self.parent_evm_rpc_url() {
            Ok(v) => v,
            Err(e) => {
                return Err(e);
            },
        };
        let registry_addr = match self.parent_evm_registry() {
            Ok(v) => v,
            Err(e) => {
                return Err(e);
            },
        };
        let gateway_addr = match self.parent_evm_gateway() {
            Ok(v) => v,
            Err(e) => {
                return Err(e);
            },
        };
        let supply_source = match self.parent_evm_supply_source() {
            Ok(v) => v,
            Err(e) => {
                return Err(e);
            },
        };
        Ok(
            EvmSubnet {
                id,
                provider_http,
                provider_timeout: Some(options.evm_rpc_timeout),
                auth_token: options.evm_rpc_auth_token,
                registry_addr,
                gateway_addr,
                supply_source: Some(supply_source),
            },
        )
    }

    /// The URL of the parent chain's EVM RPC API.
    pub fn parent_evm_rpc_url(&self) -> (r: Result<String, NetworkError>)
        ensures
            text_result(parent_evm_rpc_url_text(*self), r),
    {
        owned(
            match self {
                Network::Mainnet => Err(NetworkError::PreMainnet),
                Network::Testnet => Ok(TESTNET_PARENT_EVM_RPC_URL),
                Network::Localnet => Ok(LOCALNET_PARENT_EVM_RPC_URL),
                Network::Devnet => Err(NetworkError::NoParent),
                Network::Ignition => Ok(IGNITION_PARENT_EVM_RPC_URL),
            },
        )
    }

    /// The address of the parent chain's EVM Gateway contract.
    pub fn parent_evm_gateway(&self) -> (r: Result<Address, NetworkError>)
        ensures
            address_result(parent_evm_gateway_text(*self), r),
    {
        address(
            match self {
                Network::Mainnet => Err(NetworkError::PreMainnet),
                Network::Testnet => Ok(TESTNET_PARENT_EVM_GATEWAY_ADDRESS),
                Network::Localnet => Ok(LOCALNET_PARENT_EVM_GATEWAY_ADDRESS),
                Network::Devnet => Err(NetworkError::NoParent),
                Network::Ignition => Ok(IGNITION_PARENT_EVM_GATEWAY_ADDRESS),
            },
        )
    }

    /// The address of the parent chain's EVM Registry contract.
    pub fn parent_evm_registry(&self) -> (r: Result<Address, NetworkError>)
        ensures
            address_result(parent_evm_registry_text(*self), r),
    {
        address(
            match self {
                Network::Mainnet => Err(NetworkError::PreMainnet),
                Network::Testnet => Ok(TESTNET_PARENT_EVM_REGISTRY_ADDRESS),
                Network::Localnet => Ok(LOCALNET_PARENT_EVM_REGISTRY_ADDRESS),
                Network::Devnet => Err(NetworkError::NoParent),
                Network::Ignition => Ok(IGNITION_PARENT_EVM_REGISTRY_ADDRESS),
            },
        )
    }

    /// The address of the EVM Supply Source contract on the parent chain.
    pub fn parent_evm_supply_source(&self) -> (r: Result<Address, NetworkError>)
        ensures
            address_result(parent_evm_supply_source_text(*self), r),
    {
        address(
            match self {
                Network::Mainnet => Err(NetworkError::PreMainnet),
                Network::Testnet => Ok(TESTNET_EVM_SUPPLY_SOURCE_ADDRESS),
                Network::Localnet => Ok(LOCALNET_EVM_SUPPLY_SOURCE_ADDRESS),
                Network::Devnet => Err(NetworkError::NoParent),
                Network::Ignition => Ok(IGNITION_EVM_SUPPLY_SOURCE_ADDRESS),
            },
        )
    }
}

} // verus!
