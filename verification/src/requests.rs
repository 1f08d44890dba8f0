//! The outbound calls of the relay: where each one goes and what it says.

use vstd::prelude::*;
use vstd::utf8::encode_utf8;
use crate::codec::{base64_text, encodable_len, try_base64_encode};
use crate::constants::{
    API_URL_KEY, IS_LOCAL_KEY, PROCESSED_TX_DIGEST_KEY, SUI_MAINNET_RPC_URL, SUI_MODULE_ID_KEY,
    SUI_PACKAGE_ID_KEY, SUI_TESTNET_RPC_URL, TX_DIGEST_URL_KEY,
};
use crate::errors::BridgeError;
use crate::estimate::get_effective_size_estimate;
use crate::http::{
    headers_view, CanisterHttpRequestArgument, HttpHeader, HttpMethod, TransformContext,
};
use crate::store::BridgeStores;

verus! {

/// The JSON string literal that `serde_json` writes for `text`.
pub uninterp spec fn json_quoted(text: Seq<char>) -> Seq<char>;

/// Writes `text` as a JSON string literal with `serde_json::to_string`, which
/// does not fail on text. Trusted: the result is that literal.
#[verifier::external_body]
fn json_quote(text: &str) -> (quoted: Option<String>)
    ensures
        quoted is Some,
        quoted matches Some(q) ==> q@ == json_quoted(text@),
{
    serde_json::to_string(text).ok()
}

/// The name under which the host knows the sanitizer.
pub open spec fn sanitizer_name() -> Seq<char> {
    "cleanup_response"@
}

/// The context handed to the sanitizer with every response.
pub open spec fn sanitizer_context() -> Seq<char> {
    "{\"bucket_start_time_index\":0,\"closing_price_index\":4}"@
}

/// The endpoint of the source chain: the test network for a local
/// deployment, the main network otherwise.
pub open spec fn rpc_url(is_local: Seq<char>) -> Seq<char> {
    if is_local == "true"@ {
        SUI_TESTNET_RPC_URL@
    } else {
        SUI_MAINNET_RPC_URL@
    }
}

/// The query for the deposit events of a module. Without a cursor it asks for
/// the most recent page; with one, for the page that follows the cursor.
pub open spec fn query_events_body(
    package: Seq<char>,
    module: Seq<char>,
    cursor: Option<Seq<char>>,
) -> Seq<char> {
    let filter =
        "{\"jsonrpc\": \"2.0\",\"id\": 1,\"method\": \"suix_queryEvents\",\"params\":[{\"MoveModule\":{\"package\":\""@
        + package + "\",\"module\": \""@ + module + "\"}},"@;
    match cursor {
        None => filter + "null,18000,false]}"@,
        Some(digest) => filter + "{\"txDigest\":\""@ + digest
            + "\", \"eventSeq\": \"0\"},2,false]}"@,
    }
}

/// The request to execute a transaction under one signature.
pub open spec fn execute_tx_block_body(tx_bytes: Seq<char>, signature: Seq<char>) -> Seq<char> {
    "{\"jsonrpc\": \"2.0\",\"id\": 1,\"method\": \"sui_executeTransactionBlock\",\"params\": [\""@
        + tx_bytes + "\",[\""@ + signature + "\"],null,null]}"@
}

/// What the transaction builder is asked: the bridge's public key in base64,
/// the recipient and the amount, as a JSON object.
pub open spec fn withdraw_request_body(
    public_key: Seq<u8>,
    recipient: Seq<char>,
    amount: Seq<char>,
) -> Seq<char> {
    "{\"public_key\":"@ + json_quoted(base64_text(public_key)) + ",\"recipient\":"@ + json_quoted(
        recipient,
    ) + ",\"amount\":"@ + json_quoted(amount) + "}"@
}

/// Whether `request` posts `body` to `url` under `headers`, declares the
/// relay's response size, and names the sanitizer for the response.
pub open spec fn is_sanitized_post(
    request: CanisterHttpRequestArgument,
    url: Seq<char>,
    headers: Seq<(Seq<char>, Seq<char>)>,
    body: Seq<char>,
) -> bool {
    &&& request.url@ == url
    &&& request.max_response_bytes == Some(2304u64)
    &&& request.method == HttpMethod::POST
    &&& headers_view(request.headers@) == headers
    &&& request.body matches Some(bytes) && bytes@ == encode_utf8(body)
    &&& request.transform matches Some(transform) && transform.function@ == sanitizer_name()
        && transform.context@ == encode_utf8(sanitizer_context())
}

/// The header that declares a JSON body.
pub open spec fn json_content_type() -> (Seq<char>, Seq<char>) {
    ("Content-Type"@, "application/json"@)
}

/// The value configured under `key`, which the operation cannot do without.
pub fn required(stores: &BridgeStores, key: &str) -> (value: Result<String, BridgeError>)
    ensures
        value is Ok <==> stores.config@.contains_key(key@),
        value matches Ok(v) ==> v@ == stores.config@[key@],
        value matches Err(e) ==> e matches BridgeError::ConfigMissing(k) && k@ == key@,
{
    let name = key.to_owned();
    match stores.config.get(&name) {
        Some(value) => Ok(value),
        None => Err(BridgeError::ConfigMissing(name)),
    }
}

/// Whether `text` reads `literal`.
pub fn text_is(text: &String, literal: &str) -> (same: bool)
    ensures
        same == (text@ == literal@),
{
    let other = literal.to_owned();
    *text == other
}

/// The endpoint of the source chain that the relay is configured for.
pub fn get_sui_rpc_url(stores: &BridgeStores) -> (url: Result<String, BridgeError>)
    ensures
        url is Ok <==> stores.config@.contains_key(IS_LOCAL_KEY@),
        url matches Ok(u) ==> u@ == rpc_url(stores.config@[IS_LOCAL_KEY@]),
        url matches Err(e) ==> e matches BridgeError::ConfigMissing(k) && k@ == IS_LOCAL_KEY@,
{
    let is_local = required(stores, IS_LOCAL_KEY)?;
    if text_is(&is_local, "true") {
        Ok(SUI_TESTNET_RPC_URL.to_owned())
    } else {
        Ok(SUI_MAINNET_RPC_URL.to_owned())
    }
}

fn sanitized_post(url: String, headers: Vec<HttpHeader>, body: &String) -> (request:
    CanisterHttpRequestArgument)
    ensures
        is_sanitized_post(request, url@, headers_view(headers@), body@),
{
    CanisterHttpRequestArgument {
        url,
        max_response_bytes: Some(get_effective_size_estimate()),
        method: HttpMethod::POST,
        headers,
        body: Some(body.as_str().as_bytes_vec()),
        transform: Some(
            TransformContext {
                function: "cleanup_response".to_owned(),
                context: "{\"bucket_start_time_index\":0,\"closing_price_index\":4}".as_bytes_vec(),
            },
        ),
    }
}

fn content_type_header() -> (header: HttpHeader)
    ensures
        (header.name@, header.value@) == json_content_type(),
{
    HttpHeader { name: "Content-Type".to_owned(), value: "application/json".to_owned() }
}

/// The text of the query for deposit events.
pub fn query_events_text(package: &str, module: &str, cursor: Option<&String>) -> (body: String)
    ensures
        body@ == query_events_body(
            package@,
            module@,
            match cursor {
                Some(digest) => Some(digest@),
                None => None,
            },
        ),
{
    let mut body = String::new();
    body.append(
        "{\"jsonrpc\": \"2.0\",\"id\": 1,\"method\": \"suix_queryEvents\",\"params\":[{\"MoveModule\":{\"package\":\"",
    );
    body.append(package);
    body.append("\",\"module\": \"");
    body.append(module);
    body.append("\"}},");
    match cursor {
        None => {
            body.append("null,18000,false]}");
        },
        Some(digest) => {
            body.append("{\"txDigest\":\"");
            body.append(digest.as_str());
            body.append("\", \"eventSeq\": \"0\"},2,false]}");
        },
    }
    assert(body@ =~= query_events_body(
        package@,
        module@,
        match cursor {
            Some(digest) => Some(digest@),
            None => None,
        },
    ));
    body
}

/// The poll of the source chain: a query for the events of the configured
/// module that follow the stored cursor, or for the most recent page if no
/// cursor is stored. Fails if the package, the module or the deployment flag
/// is not configured.
pub fn query_events_request(stores: &BridgeStores) -> (request: Result<
    CanisterHttpRequestArgument,
    BridgeError,
>)
    ensures
        request is Ok <==> stores.config@.contains_key(SUI_PACKAGE_ID_KEY@)
            && stores.config@.contains_key(SUI_MODULE_ID_KEY@) && stores.config@.contains_key(
            IS_LOCAL_KEY@,
        ),
        request matches Ok(r) ==> is_sanitized_post(
            r,
            rpc_url(stores.config@[IS_LOCAL_KEY@]),
            seq![json_content_type()],
            query_events_body(
                stores.config@[SUI_PACKAGE_ID_KEY@],
                stores.config@[SUI_MODULE_ID_KEY@],
                if stores.config@.contains_key(PROCESSED_TX_DIGEST_KEY@) {
                    Some(stores.config@[PROCESSED_TX_DIGEST_KEY@])
                } else {
                    None
                },
            ),
        ),
        request matches Err(e) ==> e is ConfigMissing,
{
    let package = required(stores, SUI_PACKAGE_ID_KEY)?;
    let module = required(stores, SUI_MODULE_ID_KEY)?;
    let url = get_sui_rpc_url(stores)?;
    let cursor = stores.config.get(&PROCESSED_TX_DIGEST_KEY.to_owned());
    let body = query_events_text(package.as_str(), module.as_str(), cursor.as_ref());
    let mut headers: Vec<HttpHeader> = Vec::new();
    headers.push(content_type_header());
    assert(headers_view(headers@) =~= seq![json_content_type()]);
    Ok(sanitized_post(url, headers, &body))
}

/// The text of the request to execute `tx_bytes` under `signature`.
pub fn execute_tx_block_text(signature: &str, tx_bytes: &str) -> (body: String)
    ensures
        body@ == execute_tx_block_body(tx_bytes@, signature@),
{
    let mut body = String::new();
    body.append(
        "{\"jsonrpc\": \"2.0\",\"id\": 1,\"method\": \"sui_executeTransactionBlock\",\"params\": [\"",
    );
    body.append(tx_bytes);
    body.append("\",[\"");
    body.append(signature);
    body.append("\"],null,null]}");
    assert(body@ =~= execute_tx_block_body(tx_bytes@, signature@));
    body
}

/// The submission of a signed transaction to the destination chain. Fails if
/// the deployment flag is not configured.
pub fn execute_tx_block_request(stores: &BridgeStores, signature: &str, tx_bytes: &str) -> (request:
    Result<CanisterHttpRequestArgument, BridgeError>)
    ensures
        request is Ok <==> stores.config@.contains_key(IS_LOCAL_KEY@),
        request matches Ok(r) ==> is_sanitized_post(
            r,
            rpc_url(stores.config@[IS_LOCAL_KEY@]),
            seq![json_content_type()],
            execute_tx_block_body(tx_bytes@, signature@),
        ),
        request matches Err(e) ==> e is ConfigMissing,
{
    let url = get_sui_rpc_url(stores)?;
    let body = execute_tx_block_text(signature, tx_bytes);
    let mut headers: Vec<HttpHeader> = Vec::new();
    headers.push(content_type_header());
    assert(headers_view(headers@) =~= seq![json_content_type()]);
    Ok(sanitized_post(url, headers, &body))
}

/// The text of the request to the transaction builder.
pub fn withdraw_request_text(public_key: &Vec<u8>, recipient: &str, amount: &str) -> (body: Option<
    String,
>)
    ensures
        body is Some <==> encodable_len(public_key@.len()),
        body matches Some(b) ==> b@ == withdraw_request_body(public_key@, recipient@, amount@),
{
    let key = match try_base64_encode(public_key) {
        Some(key) => key,
        None => { return None; },
    };
    let mut body = String::new();
    body.append("{\"public_key\":");
    body.append(json_quote(key.as_str()).unwrap().as_str());
    body.append(",\"recipient\":");
    body.append(json_quote(recipient).unwrap().as_str());
    body.append(",\"amount\":");
    body.append(json_quote(amount).unwrap().as_str());
    body.append("}");
    assert(body@ =~= withdraw_request_body(public_key@, recipient@, amount@));
    Some(body)
}

/// The request to the transaction builder for an unsigned transaction that
/// pays `amount` to `recipient` from the account of `public_key`. Fails if the
/// builder's address or host is not configured, or if the key is too long to
/// encode.
pub fn get_withdraw_request(
    stores: &BridgeStores,
    public_key: &Vec<u8>,
    recipient: &str,
    amount: &str,
) -> (request: Result<CanisterHttpRequestArgument, BridgeError>)
    ensures
        request is Ok <==> stores.config@.contains_key(TX_DIGEST_URL_KEY@)
            && stores.config@.contains_key(API_URL_KEY@) && encodable_len(public_key@.len()),
        request matches Ok(r) ==> is_sanitized_post(
            r,
            stores.config@[TX_DIGEST_URL_KEY@],
            seq![("Host"@, stores.config@[API_URL_KEY@]), json_content_type()],
            withdraw_request_body(public_key@, recipient@, amount@),
        ),
        request matches Err(e) ==> (e is ConfigMissing <==> !(stores.config@.contains_key(
            TX_DIGEST_URL_KEY@,
        ) && stores.config@.contains_key(API_URL_KEY@))),
        request matches Err(e) ==> e is ConfigMissing || e is SigningError,
{
    let url = required(stores, TX_DIGEST_URL_KEY)?;
    let host = required(stores, API_URL_KEY)?;
    let body = match withdraw_request_text(public_key, recipient, amount) {
        Some(body) => body,
        None => {
            return Err(BridgeError::SigningError("public key too long".to_owned()));
        },
    };
    let mut headers: Vec<HttpHeader> = Vec::new();
    headers.push(HttpHeader { name: "Host".to_owned(), value: host });
    headers.push(content_type_header());
    assert(headers_view(headers@) =~= seq![
        ("Host"@, stores.config@[API_URL_KEY@]),
        json_content_type(),
    ]);
    Ok(sanitized_post(url, headers, &body))
}

} // verus!
