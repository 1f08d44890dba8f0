//! The wire formats of the services the relay talks to, as plain records.

use vstd::prelude::*;

verus! {

/// A JSON-RPC request whose parameters are all text.
#[derive(Default, Debug, Clone, PartialEq)]
pub struct PaySuiRequest {
    pub jsonrpc: String,
    pub id: i64,
    pub method: String,
    pub params: Vec<String>,
}

/// The answer of the source chain to an event query.
#[derive(Default, Debug, Clone, PartialEq)]
pub struct Receipt {
    pub jsonrpc: String,
    pub result: ReceiptResult,
    pub id: i64,
}

/// One page of events and the cursor that follows it.
#[derive(Default, Debug, Clone, PartialEq)]
pub struct ReceiptResult {
    pub data: Vec<ReceiptResultData>,
    pub next_cursor: NextCursor,
    pub has_next_page: bool,
}

/// One deposit event as the source chain reports it.
#[derive(Default, Debug, Clone, PartialEq)]
pub struct ReceiptResultData {
    pub id: Id,
    pub package_id: String,
    pub transaction_module: String,
    pub sender: String,
    pub type_field: String,
    pub parsed_json: ParsedJson,
    pub bcs: String,
    pub timestamp_ms: String,
}

/// The identifier of an event: the transaction that emitted it and its place in it.
#[derive(Default, Debug, Clone, PartialEq)]
pub struct Id {
    pub tx_digest: String,
    pub event_seq: String,
}

/// The payload of a deposit event.
#[derive(Default, Debug, Clone, PartialEq)]
pub struct ParsedJson {
    pub from: String,
    pub minter_address: String,
    pub principal_address: String,
    pub value: String,
}

/// The identifier of the last event of a page.
#[derive(Default, Debug, Clone, PartialEq)]
pub struct NextCursor {
    pub tx_digest: String,
    pub event_seq: String,
}

/// The answer of the source chain to a payment request.
#[derive(Default, Debug, Clone, PartialEq)]
pub struct PaySuiResponse {
    pub jsonrpc: String,
    pub result: PaySuiResponseResult,
    pub id: i64,
}

/// An unsigned transaction and the objects it spends.
#[derive(Default, Debug, Clone, PartialEq)]
pub struct PaySuiResponseResult {
    pub tx_bytes: String,
    pub gas: Vec<Gas>,
    pub input_objects: Vec<InputObject>,
}

/// A gas object.
#[derive(Default, Debug, Clone, PartialEq)]
pub struct Gas {
    pub object_id: String,
    pub version: i64,
    pub digest: String,
}

/// An object that a transaction takes as input.
#[derive(Default, Debug, Clone, PartialEq)]
pub struct InputObject {
    pub imm_or_owned_move_object: ImmOrOwnedMoveObject,
}

/// An immutable or owned object, by identifier, version and digest.
#[derive(Default, Debug, Clone, PartialEq)]
pub struct ImmOrOwnedMoveObject {
    pub object_id: String,
    pub version: i64,
    pub digest: String,
}

/// A request to merge one coin into another.
#[derive(Default, Debug, Clone, PartialEq)]
pub struct MergeCoinsRequest {
    pub primary_coin: String,
    pub secundary_coin: String,
}

/// What the transaction builder is asked for.
#[derive(Default, Debug, Clone, PartialEq)]
pub struct TxDigestRequest {
    pub public_key: String,
    pub recipient: String,
    pub amount: String,
}

/// A JSON-RPC request to execute a signed transaction.
#[derive(Default, Debug, PartialEq)]
pub struct ExecuteTxBlock {
    pub jsonrpc: String,
    pub id: i64,
    pub method: String,
    pub params: (String, Vec<String>, Option<TxBlockParams>, Option<String>),
}

/// What an execution answer is to include.
#[derive(Default, Debug, Clone, PartialEq)]
pub struct TxBlockParams {
    pub show_input: bool,
    pub show_raw_input: bool,
    pub show_effects: bool,
    pub show_events: bool,
    pub show_object_changes: bool,
    pub show_balance_changes: bool,
}

/// The answer of the destination chain to an execution request.
#[derive(Default, Debug, Clone, PartialEq)]
pub struct ExecuteTxBlockResponse {
    pub jsonrpc: String,
    pub result: ExecuteTxBlockResponseResult,
    pub id: i64,
}

/// The identifier of an executed transaction.
#[derive(Default, Debug, Clone, PartialEq)]
pub struct ExecuteTxBlockResponseResult {
    pub digest: String,
    pub confirmed_local_execution: bool,
}

/// The bridge's public key, raw and in base64.
#[derive(Default, Debug, Clone, PartialEq)]
pub struct PublicKeyResponse {
    pub public_key: Vec<u8>,
    pub public_key_bs64: String,
}

/// The bridge's public key in base64.
#[derive(Default, Debug, Clone, PartialEq)]
pub struct PublicKeyBS64 {
    pub public_key: String,
}

/// A withdrawal as a caller requests it.
#[derive(Default, Debug, Clone, PartialEq)]
pub struct TransferWithdrawArgs {
    pub amount: String,
    pub recipient: String,
}

/// The configuration that the relay is installed with.
#[derive(Default, Debug, Clone, PartialEq)]
pub struct InitArgs {
    pub ledger_canister_id: String,
    pub local_mgmt_principal_id: String,
    pub sui_package_id: String,
    pub sui_module_id: String,
    pub sufinity_api_url: String,
    pub tx_digest_url: String,
    pub is_local: String,
    pub minter_address_id: String,
}

/// The answer of the source chain to a gas price request.
#[derive(Default, Debug, Clone, PartialEq)]
pub struct ReferenceGasPriceResponse {
    pub jsonrpc: String,
    pub result: String,
    pub id: i64,
}

/// A minted deposit as an earlier layout of the ledger kept it.
#[derive(Default, Debug, Clone, PartialEq)]
pub struct Event {
    pub timestamp: u64,
    pub tx_digest: String,
    pub from: String,
    pub minter_address: String,
    pub principal_address: String,
    pub value: String,
}

} // verus!
