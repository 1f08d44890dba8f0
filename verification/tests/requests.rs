use most_bridge_backend::constants::{
    API_URL_KEY, IS_LOCAL_KEY, PROCESSED_TX_DIGEST_KEY, SUI_MODULE_ID_KEY, SUI_PACKAGE_ID_KEY,
    TX_DIGEST_URL_KEY,
};
use most_bridge_backend::errors::BridgeError;
use most_bridge_backend::http::{CanisterHttpRequestArgument, HttpHeader, HttpMethod};
use most_bridge_backend::requests::{
    execute_tx_block_request, execute_tx_block_text, get_sui_rpc_url, get_withdraw_request,
    query_events_request, query_events_text, required, text_is, withdraw_request_text,
};
use most_bridge_backend::store::{insert, BridgeStores};

fn text(s: &str) -> String {
    s.to_string()
}

fn configured(is_local: &str) -> BridgeStores {
    let mut stores = BridgeStores::open();
    insert(&mut stores, text(SUI_PACKAGE_ID_KEY), text("0xpkg"));
    insert(&mut stores, text(SUI_MODULE_ID_KEY), text("ckSuiHelper"));
    insert(&mut stores, text(IS_LOCAL_KEY), text(is_local));
    insert(&mut stores, text(TX_DIGEST_URL_KEY), text("https://builder.example.org/tx-digest"));
    insert(&mut stores, text(API_URL_KEY), text("builder.example.org"));
    stores
}

fn body_of(request: &CanisterHttpRequestArgument) -> String {
    String::from_utf8(request.body.clone().expect("a body")).expect("text")
}

fn content_type() -> HttpHeader {
    HttpHeader { name: text("Content-Type"), value: text("application/json") }
}

fn assert_sanitized_post(request: &CanisterHttpRequestArgument) {
    assert_eq!(request.method, HttpMethod::POST);
    assert_eq!(request.max_response_bytes, Some(2304));
    let transform = request.transform.as_ref().expect("a transform");
    assert_eq!(transform.function, "cleanup_response");
    assert_eq!(
        transform.context,
        b"{\"bucket_start_time_index\":0,\"closing_price_index\":4}".to_vec()
    );
}

#[test]
fn first_query_asks_for_the_latest_page() {
    assert_eq!(
        query_events_text("0xpkg", "ckSuiHelper", None),
        "{\"jsonrpc\": \"2.0\",\"id\": 1,\"method\": \"suix_queryEvents\",\"params\":[{\"MoveModule\":{\"package\":\"0xpkg\",\"module\": \"ckSuiHelper\"}},null,18000,false]}"
    );
}

#[test]
fn later_query_names_the_cursor() {
    assert_eq!(
        query_events_text("0xpkg", "ckSuiHelper", Some(&text("d1"))),
        "{\"jsonrpc\": \"2.0\",\"id\": 1,\"method\": \"suix_queryEvents\",\"params\":[{\"MoveModule\":{\"package\":\"0xpkg\",\"module\": \"ckSuiHelper\"}},{\"txDigest\":\"d1\", \"eventSeq\": \"0\"},2,false]}"
    );
}

#[test]
fn query_request_follows_the_stored_cursor() {
    let mut stores = configured("true");
    let request = query_events_request(&stores).expect("a request");
    assert_sanitized_post(&request);
    assert_eq!(request.url, "https://fullnode.testnet.sui.io:443");
    assert_eq!(request.headers, vec![content_type()]);
    assert_eq!(body_of(&request), query_events_text("0xpkg", "ckSuiHelper", None));

    insert(&mut stores, text(PROCESSED_TX_DIGEST_KEY), text("d7"));
    let request = query_events_request(&stores).expect("a request");
    assert_eq!(body_of(&request), query_events_text("0xpkg", "ckSuiHelper", Some(&text("d7"))));
}

#[test]
fn query_request_needs_package_module_and_flag() {
    for missing in [SUI_PACKAGE_ID_KEY, SUI_MODULE_ID_KEY, IS_LOCAL_KEY] {
        let mut stores = BridgeStores::open();
        for key in [SUI_PACKAGE_ID_KEY, SUI_MODULE_ID_KEY, IS_LOCAL_KEY] {
            if key != missing {
                insert(&mut stores, text(key), text("x"));
            }
        }
        assert_eq!(
            query_events_request(&stores),
            Err(BridgeError::ConfigMissing(text(missing)))
        );
    }
}

#[test]
fn rpc_url_follows_the_deployment_flag() {
    assert_eq!(get_sui_rpc_url(&configured("true")), Ok(text("https://fullnode.testnet.sui.io:443")));
    assert_eq!(get_sui_rpc_url(&configured("false")), Ok(text("https://fullnode.mainnet.sui.io:443")));
    assert_eq!(get_sui_rpc_url(&configured("TRUE")), Ok(text("https://fullnode.mainnet.sui.io:443")));
    assert_eq!(get_sui_rpc_url(&configured("")), Ok(text("https://fullnode.mainnet.sui.io:443")));
    assert_eq!(
        get_sui_rpc_url(&BridgeStores::open()),
        Err(BridgeError::ConfigMissing(text(IS_LOCAL_KEY)))
    );
}

#[test]
fn required_reports_the_missing_key() {
    let stores = configured("true");
    assert_eq!(required(&stores, SUI_PACKAGE_ID_KEY), Ok(text("0xpkg")));
    assert_eq!(required(&stores, "nothing"), Err(BridgeError::ConfigMissing(text("nothing"))));
}

#[test]
fn text_is_compares_exactly() {
    assert!(text_is(&text("true"), "true"));
    assert!(!text_is(&text("true "), "true"));
    assert!(!text_is(&text("True"), "true"));
    assert!(text_is(&text(""), ""));
}

#[test]
fn execute_body_carries_transaction_and_signature() {
    assert_eq!(
        execute_tx_block_text("SIG==", "AQID"),
        "{\"jsonrpc\": \"2.0\",\"id\": 1,\"method\": \"sui_executeTransactionBlock\",\"params\": [\"AQID\",[\"SIG==\"],null,null]}"
    );
}

#[test]
fn execute_request_goes_to_the_configured_network() {
    let request = execute_tx_block_request(&configured("false"), "SIG==", "AQID").expect("a request");
    assert_sanitized_post(&request);
    assert_eq!(request.url, "https://fullnode.mainnet.sui.io:443");
    assert_eq!(request.headers, vec![content_type()]);
    assert_eq!(body_of(&request), execute_tx_block_text("SIG==", "AQID"));
    assert_eq!(
        execute_tx_block_request(&BridgeStores::open(), "SIG==", "AQID"),
        Err(BridgeError::ConfigMissing(text(IS_LOCAL_KEY)))
    );
}

#[test]
fn builder_body_is_a_json_object() {
    let key = vec![2u8, 9, 9];
    assert_eq!(
        withdraw_request_text(&key, "0xrecipient", "50"),
        Some(text("{\"public_key\":\"AgkJ\",\"recipient\":\"0xrecipient\",\"amount\":\"50\"}"))
    );
}

#[test]
fn builder_body_escapes_its_values() {
    let body = withdraw_request_text(&vec![], "a\"b\\c\n", "5\u{1}").expect("a body");
    assert_eq!(
        body,
        "{\"public_key\":\"\",\"recipient\":\"a\\\"b\\\\c\\n\",\"amount\":\"5\\u0001\"}"
    );
}

#[test]
fn builder_request_names_the_host() {
    let key = vec![2u8, 9, 9];
    let request = get_withdraw_request(&configured("true"), &key, "0xrecipient", "50").expect("a request");
    assert_sanitized_post(&request);
    assert_eq!(request.url, "https://builder.example.org/tx-digest");
    assert_eq!(
        request.headers,
        vec![
            HttpHeader { name: text("Host"), value: text("builder.example.org") },
            content_type(),
        ]
    );
    assert_eq!(
        body_of(&request),
        "{\"public_key\":\"AgkJ\",\"recipient\":\"0xrecipient\",\"amount\":\"50\"}"
    );
}

#[test]
fn builder_request_needs_address_and_host() {
    let mut stores = BridgeStores::open();
    assert_eq!(
        get_withdraw_request(&stores, &vec![1], "r", "1"),
        Err(BridgeError::ConfigMissing(text(TX_DIGEST_URL_KEY)))
    );
    insert(&mut stores, text(TX_DIGEST_URL_KEY), text("https://builder.example.org"));
    assert_eq!(
        get_withdraw_request(&stores, &vec![1], "r", "1"),
        Err(BridgeError::ConfigMissing(text(API_URL_KEY)))
    );
}
