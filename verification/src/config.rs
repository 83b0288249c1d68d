//! Fixed configuration of the provider.

use vstd::prelude::*;

verus! {

/// The largest request, in bytes, that the dispatcher parses.
pub const MAX_JSONRPC_REQUEST_SIZE_BYTES: usize = 1_000_000;

/// The largest response, in bytes, that the dispatcher writes out in full.
pub const MAX_JSONRPC_RESPONSE_SIZE_BYTES: usize = 1_000_000;

/// What `web3_clientVersion` answers.
pub const CLIENT_VERSION: &'static str = "SealVault";

/// Stands in the page script where the name of the injected provider object goes.
pub const RPC_PROVIDER_PLACEHOLDER: &'static str = "<SEALVAULT_RPC_PROVIDER>";

/// Stands in the page script where the name of the host's request handler goes.
pub const REQUEST_HANDLER_PLACEHOLDER: &'static str = "<SEALVAULT_REQUEST_HANDLER>";

/// Stands in the page script where the default chain id goes.
pub const DEFAULT_CHAIN_ID_PLACEHOLDER: &'static str = "<SEALVAULT_DEFAULT_CHAIN_ID>";

/// Stands in the page script where the default network version goes.
pub const DEFAULT_NETWORK_VERSION_PLACEHOLDER: &'static str = "<SEALVAULT_DEFAULT_NETWORK_VERSION>";

} // verus!
