//! Configuration keys, endpoints and payload limits shared by the relay.

use vstd::prelude::*;

verus! {

/// Seconds between two polls of the source chain for new deposit events.
pub const QUERY_SUI_EVENTS_INTERVAL: u64 = 60;

pub const SUI_TESTNET_RPC_URL: &'static str = "https://fullnode.testnet.sui.io:443";

pub const SUI_MAINNET_RPC_URL: &'static str = "https://fullnode.mainnet.sui.io:443";

pub const PROCESSED_TX_DIGEST_KEY: &'static str = "txDigest";

pub const LEDGER_CANISTER_ID_KEY: &'static str = "ledger_canister_id_key";

pub const LOCAL_MGMT_PRINCIPAL_ID_KEY: &'static str = "local_mgmt_principal_id_key";

pub const SUI_PACKAGE_ID_KEY: &'static str = "sui_package_id_key";

pub const SUI_MODULE_ID_KEY: &'static str = "sui_module_id_key";

pub const API_URL_KEY: &'static str = "api_url_key";

pub const TX_DIGEST_URL_KEY: &'static str = "tx_digest_url_key";

pub const IS_LOCAL_KEY: &'static str = "is_local_key";

pub const MINTER_TOKEN_KEY: &'static str = "minter_token_local_key";

/// Allowance for response headers. HTTP sets no limit and many servers stop at
/// 8 KiB; headers seen in practice fit in 2 KiB.
pub const HEADER_SIZE_LIMIT: u64 = 2048;

/// Largest response the host accepts for one outbound call.
pub const HTTP_MAX_SIZE: u64 = 2_000_000;

/// Largest response body that still leaves room for the header allowance.
pub const MAX_PAYLOAD_SIZE: u64 = 1_997_952;

/// Smallest estimate that `ResponseSizeEstimate::adjust` grows from.
pub const MIN_ADJUSTED_SIZE: u64 = 1024;

/// Body size expected from the JSON-RPC endpoints the relay talks to.
pub const DEFAULT_RESPONSE_SIZE: u64 = 256;

/// Cost units charged for any outbound call.
pub const BASE_CYCLES: u128 = 400_000_000;

/// Cost units charged per byte of request and of declared response.
pub const CYCLES_PER_BYTE: u128 = 100_000;

/// Number of nodes the base prices are quoted for.
pub const BASE_SUBNET_SIZE: u128 = 13;

/// Number of nodes of the network the relay runs on.
pub const SUBNET_SIZE: u128 = 34;

} // verus!
