//! The transaction builder's side of a withdrawal: the payment it asks the
//! destination chain to prepare, and the digest that the bridge signs.

use vstd::prelude::*;
use crate::codec::{
    base64_bytes, base64_decode, base64_text, blake2b256_digest, blake2b256_of, digest_bytes,
    try_base64_encode,
};
use crate::common::TxDigestResponse;
use crate::envelope::append_bytes;
use crate::models::PaySuiRequest;

verus! {

/// The bytes that are hashed for a transaction: the intent of a transaction
/// for the destination chain, three zero bytes for scope, version and
/// application, and then the transaction as the chain serialises it.
pub open spec fn intent_message(tx_bytes: Seq<u8>) -> Seq<u8> {
    seq![0u8, 0u8, 0u8] + tx_bytes
}

/// The parameters of a payment: who signs, the coin that is spent and pays
/// the gas, the gas budget, the recipient and the amount.
pub open spec fn transfer_params(
    signer: Seq<char>,
    gas_object_id: Seq<char>,
    gas_budget: Seq<char>,
    recipient: Seq<char>,
    amount: Seq<char>,
) -> Seq<Seq<char>> {
    seq![signer, gas_object_id, gas_budget, recipient, amount]
}

/// The bytes that are hashed for the transaction `tx_bytes`.
pub fn intent_bytes(tx_bytes: &Vec<u8>) -> (message: Vec<u8>)
    ensures
        message@ == intent_message(tx_bytes@),
{
    let mut message: Vec<u8> = Vec::new();
    message.push(0);
    message.push(0);
    message.push(0);
    append_bytes(&mut message, tx_bytes);
    assert(message@ =~= intent_message(tx_bytes@));
    message
}

/// The digest that the destination chain verifies a signature against: the
/// 256-bit BLAKE2b hash of the intent message of the transaction. It takes
/// `tx_bytes` as the chain's serialisation without reading it.
pub fn transaction_digest(tx_bytes: &Vec<u8>) -> (digest: [u8; 32])
    ensures
        digest@ == blake2b256_digest(intent_message(tx_bytes@)),
{
    let message = intent_bytes(tx_bytes);
    blake2b256_of(&message)
}

/// What the builder answers for an unsigned transaction in base64: the
/// digest to sign, in base64, with the transaction. Nothing if `tx_bytes` is
/// not base64.
pub fn tx_digest(tx_bytes: String) -> (reply: Option<TxDigestResponse>)
    ensures
        reply is Some <==> base64_bytes(tx_bytes@) is Some,
        reply matches Some(r) ==> r.tx_bytes == tx_bytes && r.digest@ == base64_text(
            blake2b256_digest(intent_message(base64_bytes(tx_bytes@)->0)),
        ),
{
    match base64_decode(tx_bytes.as_str()) {
        Some(decoded) => {
            let digest = transaction_digest(&decoded);
            let bytes = digest_bytes(&digest);
            match try_base64_encode(&bytes) {
                Some(text) => Some(TxDigestResponse { digest: text, tx_bytes }),
                None => None,
            }
        },
        None => None,
    }
}

/// The request that asks the destination chain to prepare a payment of
/// `amount` to `recipient`, signed by `signer` and paid from `gas_object_id`
/// within `gas_budget`.
pub fn transfer_sui(
    signer: String,
    gas_object_id: String,
    gas_budget: String,
    recipient: String,
    amount: String,
) -> (request: PaySuiRequest)
    ensures
        request.jsonrpc@ == "2.0"@,
        request.id == 1,
        request.method@ == "unsafe_transferSui"@,
        request.params@.map_values(|p: String| p@) == transfer_params(
            signer@,
            gas_object_id@,
            gas_budget@,
            recipient@,
            amount@,
        ),
{
    let mut params: Vec<String> = Vec::new();
    params.push(signer);
    params.push(gas_object_id);
    params.push(gas_budget);
    params.push(recipient);
    params.push(amount);
    assert(params@.map_values(|p: String| p@) =~= transfer_params(
        signer@,
        gas_object_id@,
        gas_budget@,
        recipient@,
        amount@,
    ));
    PaySuiRequest {
        jsonrpc: "2.0".to_owned(),
        id: 1,
        method: "unsafe_transferSui".to_owned(),
        params,
    }
}

} // verus!
