//! The methods that a dapp may call: the wallet's own, and the read-only chain
//! queries that are handed on to a chain node.

use crate::encoding::str_eq;
use vstd::prelude::*;

verus! {

/// A method as the dispatcher tells it apart.
#[derive(Debug, Clone, Copy, PartialEq, Eq, Structural)]
pub enum Method {
    /// `eth_requestAccounts`
    RequestAccounts,
    /// `eth_accounts`
    Accounts,
    /// `eth_chainId`
    ChainId,
    /// `eth_sendTransaction`
    SendTransaction,
    /// `personal_sign`
    PersonalSign,
    /// `wallet_addEthereumChain`
    AddEthereumChain,
    /// `wallet_switchEthereumChain`
    SwitchEthereumChain,
    /// `web3_clientVersion`
    ClientVersion,
    /// `web3_sha3`
    Sha3,
    /// Any other name: a chain query, if it is on the allow-list.
    Other,
}

impl Method {
    /// The methods that a dapp can call before it has a session: through them it
    /// asks for one.
    pub open spec fn spec_is_bootstrap(&self) -> bool {
        *self == Method::RequestAccounts || *self == Method::Accounts
    }

    #[verifier::when_used_as_spec(spec_is_bootstrap)]
    pub fn is_bootstrap(&self) -> (bootstrap: bool)
        ensures
            bootstrap == self.spec_is_bootstrap(),
    {
        match self {
            Method::RequestAccounts => true,
            Method::Accounts => true,
            _ => false,
        }
    }
}

/// The method that a name stands for.
pub open spec fn method_of(name: Seq<char>) -> Method {
    if name == "eth_requestAccounts"@ {
        Method::RequestAccounts
    } else if name == "eth_accounts"@ {
        Method::Accounts
    } else if name == "eth_chainId"@ {
        Method::ChainId
    } else if name == "eth_sendTransaction"@ {
        Method::SendTransaction
    } else if name == "personal_sign"@ {
        Method::PersonalSign
    } else if name == "wallet_addEthereumChain"@ {
        Method::AddEthereumChain
    } else if name == "wallet_switchEthereumChain"@ {
        Method::SwitchEthereumChain
    } else if name == "web3_clientVersion"@ {
        Method::ClientVersion
    } else if name == "web3_sha3"@ {
        Method::Sha3
    } else {
        Method::Other
    }
}

/// Tells the wallet's own methods apart by name.
pub fn classify(name: &str) -> (method: Method)
    ensures
        method == method_of(name@),
{
    if str_eq(name, "eth_requestAccounts") {
        Method::RequestAccounts
    } else if str_eq(name, "eth_accounts") {
        Method::Accounts
    } else if str_eq(name, "eth_chainId") {
        Method::ChainId
    } else if str_eq(name, "eth_sendTransaction") {
        Method::SendTransaction
    } else if str_eq(name, "personal_sign") {
        Method::PersonalSign
    } else if str_eq(name, "wallet_addEthereumChain") {
        Method::AddEthereumChain
    } else if str_eq(name, "wallet_switchEthereumChain") {
        Method::SwitchEthereumChain
    } else if str_eq(name, "web3_clientVersion") {
        Method::ClientVersion
    } else if str_eq(name, "web3_sha3") {
        Method::Sha3
    } else {
        Method::Other
    }
}

/// The names on the allow-list, in the order in which the list is kept.
pub open spec fn proxied_rpc_methods() -> Seq<Seq<char>> {
    seq![
        "net_listening"@,
        "net_peerCount"@,
        "net_version"@,
        "eth_blockNumber"@,
        "eth_call"@,
        "eth_chainId"@,
        "eth_estimateGas"@,
        "eth_gasPrice"@,
        "eth_getBalance"@,
        "eth_getBlockByHash"@,
        "eth_getBlockByNumber"@,
        "eth_getBlockTransactionCountByHash"@,
        "eth_getBlockTransactionCountByNumber"@,
        "eth_getCode"@,
        "eth_getFilterChanges"@,
        "eth_getFilterLogs"@,
        "eth_getRawTransactionByHash"@,
        "eth_getRawTransactionByBlockHashAndIndex"@,
        "eth_getRawTransactionByBlockNumberAndIndex"@,
        "eth_getLogs"@,
        "eth_getStorageAt"@,
        "eth_getTransactionByBlockHashAndIndex"@,
        "eth_getTransactionByBlockNumberAndIndex"@,
        "eth_getTransactionByHash"@,
        "eth_getTransactionCount"@,
        "eth_getTransactionReceipt"@,
        "eth_getUncleByBlockHashAndIndex"@,
        "eth_getUncleByBlockNumberAndIndex"@,
        "eth_getUncleCountByBlockHash"@,
        "eth_getUncleCountByBlockNumber"@,
        "eth_getProof"@,
        "eth_newBlockFilter"@,
        "eth_newFilter"@,
        "eth_newPendingTransactionFilter"@,
        "eth_protocolVersion"@,
        "eth_sendRawTransaction"@,
        "eth_syncing"@,
        "eth_uninstallFilter"@,
    ]
}

/// Whether a method is on the allow-list of chain queries.
pub open spec fn is_proxied(name: Seq<char>) -> bool {
    proxied_rpc_methods().contains(name)
}

/// The allow-list as strings.
pub fn proxied_rpc_method_names() -> (names: Vec<&'static str>)
    ensures
        names@.len() == proxied_rpc_methods().len(),
        forall|i: int| 0 <= i < names@.len() ==> (#[trigger] names@[i])@ == proxied_rpc_methods()[i],
{
    vec![
        "net_listening",
        "net_peerCount",
        "net_version",
        "eth_blockNumber",
        "eth_call",
        "eth_chainId",
        "eth_estimateGas",
        "eth_gasPrice",
        "eth_getBalance",
        "eth_getBlockByHash",
        "eth_getBlockByNumber",
        "eth_getBlockTransactionCountByHash",
        "eth_getBlockTransactionCountByNumber",
        "eth_getCode",
        "eth_getFilterChanges",
        "eth_getFilterLogs",
        "eth_getRawTransactionByHash",
        "eth_getRawTransactionByBlockHashAndIndex",
        "eth_getRawTransactionByBlockNumberAndIndex",
        "eth_getLogs",
        "eth_getStorageAt",
        "eth_getTransactionByBlockHashAndIndex",
        "eth_getTransactionByBlockNumberAndIndex",
        "eth_getTransactionByHash",
        "eth_getTransactionCount",
        "eth_getTransactionReceipt",
        "eth_getUncleByBlockHashAndIndex",
        "eth_getUncleByBlockNumberAndIndex",
        "eth_getUncleCountByBlockHash",
        "eth_getUncleCountByBlockNumber",
        "eth_getProof",
        "eth_newBlockFilter",
        "eth_newFilter",
        "eth_newPendingTransactionFilter",
        "eth_protocolVersion",
        "eth_sendRawTransaction",
        "eth_syncing",
        "eth_uninstallFilter",
    ]
}

/// Looks a method up on the allow-list.
pub fn is_proxied_rpc_method(name: &str) -> (listed: bool)
    ensures
        listed == is_proxied(name@),
{
    let names = proxied_rpc_method_names();
    let mut i: usize = 0;
    while i < names.len()
        invariant
            i <= names@.len(),
            names@.len() == proxied_rpc_methods().len(),
            forall|j: int| 0 <= j < names@.len() ==> (#[trigger] names@[j])@ == proxied_rpc_methods()[j],
            forall|j: int| 0 <= j < i ==> proxied_rpc_methods()[j] != name@,
        decreases names@.len() - i,
    {
        if str_eq(names[i], name) {
            assert(proxied_rpc_methods()[i as int] == name@);
            return true;
        }
        i = i + 1;
    }
    false
}

} // verus!
