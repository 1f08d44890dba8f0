use most_bridge_backend::builder::tx_digest;
use most_bridge_backend::common::{
    ECDSAPublicKeyReply, EcdsaCurve, SignWithECDSAReply, TxDigestResponse, WithdrawResponse,
};
use most_bridge_backend::config::init;
use most_bridge_backend::constants::{IS_LOCAL_KEY, MINTER_TOKEN_KEY};
use most_bridge_backend::envelope::{decode_signature, Envelope};
use most_bridge_backend::errors::BridgeError;
use most_bridge_backend::http::HttpFailure;
use most_bridge_backend::models::{
    ExecuteTxBlockResponse, ExecuteTxBlockResponseResult, InitArgs, TransferWithdrawArgs,
};
use most_bridge_backend::natural::Natural;
use most_bridge_backend::store::{get_finalized_transactions, insert, BridgeStores, KeyValue};
use most_bridge_backend::withdraw::{
    explorer_link, get_public_key, mgmt_canister_id, public_key_request, sign_with_ecdsa,
    WithdrawAction, WithdrawStage, Withdrawal,
};

const CALLER: &str = "2vxsx-fae";
const SHA256_OF_COUNTING: [u8; 32] = [
    99, 13, 205, 41, 102, 196, 51, 102, 145, 18, 84, 72, 187, 178, 91, 79, 244, 18, 164, 156, 115,
    45, 178, 200, 171, 193, 184, 88, 27, 215, 16, 221,
];
const COUNTING_DIGEST: &str = "AAECAwQFBgcICQoLDA0ODxAREhMUFRYXGBkaGxwdHh8=";

fn text(s: &str) -> String {
    s.to_string()
}

fn stores(is_local: &str) -> BridgeStores {
    let mut stores = BridgeStores::open();
    assert!(init(
        &mut stores,
        InitArgs {
            ledger_canister_id: text("mxzaz-hqaaa-aaaar-qaada-cai"),
            local_mgmt_principal_id: text("ryjl3-tyaaa-aaaaa-aaaba-cai"),
            sui_package_id: text("0xpkg"),
            sui_module_id: text("ckSuiHelper"),
            sufinity_api_url: text("builder.example.org"),
            tx_digest_url: text("https://builder.example.org/tx-digest"),
            is_local: text(is_local),
            minter_address_id: text("ryjl3-tyaaa-aaaaa-aaaba-cai"),
        }
    ));
    stores
}

fn args(amount: &str) -> TransferWithdrawArgs {
    TransferWithdrawArgs { amount: text(amount), recipient: text("0xrecipient") }
}

fn key() -> Vec<u8> {
    let mut key = vec![2u8];
    key.extend(vec![9u8; 32]);
    key
}

fn key_reply() -> ECDSAPublicKeyReply {
    ECDSAPublicKeyReply { public_key: key(), chain_code: vec![0; 32] }
}

fn built() -> TxDigestResponse {
    TxDigestResponse { digest: text(COUNTING_DIGEST), tx_bytes: text("AQIDBAU=") }
}

fn executed(digest: &str) -> ExecuteTxBlockResponse {
    ExecuteTxBlockResponse {
        jsonrpc: text("2.0"),
        result: ExecuteTxBlockResponseResult { digest: text(digest), confirmed_local_execution: true },
        id: 1,
    }
}

fn body_of(action: &WithdrawAction) -> String {
    match action {
        WithdrawAction::BuildTransaction(request) | WithdrawAction::Submit(request) => {
            String::from_utf8(request.body.clone().expect("a body")).expect("text")
        }
        other => panic!("{:?}", other),
    }
}

/// A withdrawal that has come as far as `stage`.
fn at(stage: WithdrawStage, stores: &BridgeStores) -> Withdrawal {
    let (mut withdrawal, _) = Withdrawal::request(stores, CALLER, args("50")).expect("accepted");
    if stage == WithdrawStage::Requested {
        return withdrawal;
    }
    withdrawal.on_funds_locked(stores, Ok(Natural::from_u64(12))).expect("locked");
    if stage == WithdrawStage::FundsLocked {
        return withdrawal;
    }
    withdrawal.on_public_key(stores, Ok(key_reply())).expect("key");
    withdrawal.on_transaction_built(stores, Ok(built())).expect("built");
    if stage == WithdrawStage::Digested {
        return withdrawal;
    }
    withdrawal
        .on_signed(stores, Ok(SignWithECDSAReply { signature: vec![7; 64] }))
        .expect("signed");
    withdrawal
}

#[test]
fn withdrawal_of_50_runs_through_every_stage() {
    let mut stores = stores("true");
    let now = 1_700_000_000_000_000_000u64;

    let (mut withdrawal, action) = Withdrawal::request(&stores, CALLER, args("50")).expect("accepted");
    assert_eq!(withdrawal.stage, WithdrawStage::Requested);
    assert_eq!(
        action,
        WithdrawAction::LockFunds {
            ledger: candid::Principal::from_text("mxzaz-hqaaa-aaaar-qaada-cai").unwrap().as_slice().to_vec(),
            from: vec![4],
            to: vec![0, 0, 0, 0, 0, 0, 0, 2, 1, 1],
            amount: Natural::from_u64(50),
        }
    );

    let action = withdrawal.on_funds_locked(&stores, Ok(Natural::from_u64(12))).expect("locked");
    assert_eq!(withdrawal.stage, WithdrawStage::FundsLocked);
    match action {
        WithdrawAction::FetchPublicKey { signer, request } => {
            assert_eq!(signer, vec![0, 0, 0, 0, 0, 0, 0, 2, 1, 1]);
            assert_eq!(request, public_key_request());
        }
        other => panic!("{:?}", other),
    }

    let action = withdrawal.on_public_key(&stores, Ok(key_reply())).expect("key");
    assert_eq!(
        body_of(&action),
        "{\"public_key\":\"AgkJCQkJCQkJCQkJCQkJCQkJCQkJCQkJCQkJCQkJCQkJ\",\"recipient\":\"0xrecipient\",\"amount\":\"50\"}"
    );

    // The builder answers with the transaction X and the digest of its intent message.
    let from_builder = tx_digest(text("AQIDBAU=")).expect("a digest");
    assert_eq!(from_builder.digest, "cLwAFgseQQR1mG9K1KalSKeIJQ4AoFfqmAV+WTihFs8=");
    let action = withdrawal.on_transaction_built(&stores, Ok(from_builder)).expect("built");
    assert_eq!(withdrawal.stage, WithdrawStage::Digested);
    assert_eq!(withdrawal.tx_bytes, "AQIDBAU=");
    match action {
        WithdrawAction::Sign { signer, request } => {
            assert_eq!(signer, vec![0, 0, 0, 0, 0, 0, 0, 2, 1, 1]);
            assert_eq!(
                request,
                sign_with_ecdsa([
                    112, 188, 0, 22, 11, 30, 65, 4, 117, 152, 111, 74, 212, 166, 165, 72, 167,
                    136, 37, 14, 0, 160, 87, 234, 152, 5, 126, 89, 56, 161, 22, 207
                ])
            );
            assert_eq!(request.message_hash.len(), 32);
        }
        other => panic!("{:?}", other),
    }

    let action = withdrawal
        .on_signed(&stores, Ok(SignWithECDSAReply { signature: vec![7; 64] }))
        .expect("signed");
    assert_eq!(withdrawal.stage, WithdrawStage::Signed);
    let submitted = body_of(&action);
    assert_eq!(
        submitted,
        "{\"jsonrpc\": \"2.0\",\"id\": 1,\"method\": \"sui_executeTransactionBlock\",\"params\": [\"AQIDBAU=\",[\"AQcHBwcHBwcHBwcHBwcHBwcHBwcHBwcHBwcHBwcHBwcHBwcHBwcHBwcHBwcHBwcHBwcHBwcHBwcHBwcHBwcHBwcCCQkJCQkJCQkJCQkJCQkJCQkJCQkJCQkJCQkJCQkJCQk=\"],null,null]}"
    );
    let envelope = submitted.split("[\"").nth(2).unwrap().split('"').next().unwrap();
    assert_eq!(
        decode_signature(envelope, 64),
        Some(Envelope { flag: 1, signature: vec![7; 64], public_key: key() })
    );
    assert!(get_finalized_transactions(&stores).is_empty());

    let action = withdrawal.on_submitted(&mut stores, Ok(executed("9xQ")), now).expect("recorded");
    assert_eq!(action, WithdrawAction::Done(WithdrawResponse { tx_digest: text("9xQ") }));
    assert_eq!(withdrawal.stage, WithdrawStage::Recorded);
    assert!(!withdrawal.failed);
    assert_eq!(
        get_finalized_transactions(&stores),
        vec![KeyValue(text(
            "{\"block_index\": \"12\",\"date\":\"1700000000000000000\", \"amount\": \"50\",\"from\": \"2vxsx-fae\", \"tx\": \"https://suiscan.xyz/testnet/tx/9xQ\" }"
        ))]
    );
    assert!(stores.finalized.get(&text("12")).is_some());
}

#[test]
fn a_main_network_deployment_signs_through_the_management_canister() {
    let mut stores = stores("false");
    let (mut withdrawal, _) = Withdrawal::request(&stores, CALLER, args("50")).expect("accepted");
    match withdrawal.on_funds_locked(&stores, Ok(Natural::from_u64(1))).expect("locked") {
        WithdrawAction::FetchPublicKey { signer, .. } => assert_eq!(signer, Vec::<u8>::new()),
        other => panic!("{:?}", other),
    }
    withdrawal.on_public_key(&stores, Ok(key_reply())).expect("key");
    withdrawal.on_transaction_built(&stores, Ok(built())).expect("built");
    match withdrawal.on_signed(&stores, Ok(SignWithECDSAReply { signature: vec![7; 64] })).expect("signed") {
        WithdrawAction::Submit(request) => assert_eq!(request.url, "https://fullnode.mainnet.sui.io:443"),
        other => panic!("{:?}", other),
    }
    withdrawal.on_submitted(&mut stores, Ok(executed("abc")), 1).expect("recorded");
    assert!(get_finalized_transactions(&stores)[0].0.ends_with("\"tx\": \"https://suiscan.xyz/mainnet/tx/abc\" }"));
}

#[test]
fn request_needs_custody_account_and_ledger() {
    let mut stores = BridgeStores::open();
    assert_eq!(
        Withdrawal::request(&stores, CALLER, args("50")).err(),
        Some(BridgeError::ConfigMissing(text(MINTER_TOKEN_KEY)))
    );
    insert(&mut stores, text(MINTER_TOKEN_KEY), text("not a principal"));
    assert_eq!(
        Withdrawal::request(&stores, CALLER, args("50")).err(),
        Some(BridgeError::ConfigMissing(text(MINTER_TOKEN_KEY)))
    );
    insert(&mut stores, text(MINTER_TOKEN_KEY), text("ryjl3-tyaaa-aaaaa-aaaba-cai"));
    assert_eq!(
        Withdrawal::request(&stores, CALLER, args("50")).err(),
        Some(BridgeError::ConfigMissing(text("ledger_canister_id_key")))
    );
}

#[test]
fn request_refuses_an_unreadable_amount_or_caller() {
    let stores = stores("true");
    for amount in ["", "fifty", "-50", "5.0"] {
        assert!(matches!(
            Withdrawal::request(&stores, CALLER, args(amount)),
            Err(BridgeError::MalformedResponse(_))
        ));
    }
    assert!(matches!(
        Withdrawal::request(&stores, "C", args("50")),
        Err(BridgeError::MalformedResponse(_))
    ));
}

#[test]
fn a_refused_lock_fails_with_the_ledgers_message() {
    let stores = stores("true");
    let mut withdrawal = at(WithdrawStage::Requested, &stores);
    assert_eq!(
        withdrawal.on_funds_locked(&stores, Err(text("InsufficientAllowance { allowance: Nat(0) }"))),
        Err(BridgeError::LedgerError(text("InsufficientAllowance { allowance: Nat(0) }")))
    );
    assert!(withdrawal.failed);
    assert_eq!(withdrawal.stage, WithdrawStage::Requested);
    assert_eq!(withdrawal.block_index, None);
    assert_eq!(
        withdrawal.on_funds_locked(&stores, Ok(Natural::from_u64(1))),
        Err(BridgeError::OutOfTurn)
    );
}

#[test]
fn a_failed_key_request_is_a_signing_error() {
    let stores = stores("true");
    let mut withdrawal = at(WithdrawStage::FundsLocked, &stores);
    assert_eq!(
        withdrawal.on_public_key(&stores, Err(text("no key"))),
        Err(BridgeError::SigningError(text("no key")))
    );
    assert!(withdrawal.failed);
    assert_eq!(withdrawal.stage, WithdrawStage::FundsLocked);
    assert_eq!(withdrawal.block_index, Some(Natural::from_u64(12)));
}

#[test]
fn an_unreachable_builder_fails_the_withdrawal() {
    let stores = stores("true");
    let mut withdrawal = at(WithdrawStage::FundsLocked, &stores);
    withdrawal.on_public_key(&stores, Ok(key_reply())).expect("key");
    assert_eq!(
        withdrawal.on_transaction_built(&stores, Err(HttpFailure::Transport(text("timeout")))),
        Err(BridgeError::BuilderUnavailable(text("timeout")))
    );
    assert!(withdrawal.failed);
    assert_eq!(withdrawal.stage, WithdrawStage::FundsLocked);
}

#[test]
fn an_unreadable_builder_answer_fails_the_withdrawal() {
    let stores = stores("true");
    let mut withdrawal = at(WithdrawStage::FundsLocked, &stores);
    withdrawal.on_public_key(&stores, Ok(key_reply())).expect("key");
    assert_eq!(
        withdrawal.on_transaction_built(&stores, Err(HttpFailure::Malformed(text("Failed to get tx digest")))),
        Err(BridgeError::MalformedResponse(text("Failed to get tx digest")))
    );
    assert!(withdrawal.failed);
}

#[test]
fn a_digest_that_is_not_32_bytes_fails_at_tx_built() {
    let stores = stores("true");
    for digest in ["", "AQID", "not base64", "AAECAwQFBgcICQoLDA0ODxAREhMUFRYXGBkaGxwdHh8g"] {
        let mut withdrawal = at(WithdrawStage::FundsLocked, &stores);
        withdrawal.on_public_key(&stores, Ok(key_reply())).expect("key");
        let answer = TxDigestResponse { digest: text(digest), tx_bytes: text("AQIDBAU=") };
        assert!(matches!(
            withdrawal.on_transaction_built(&stores, Ok(answer)),
            Err(BridgeError::MalformedResponse(_))
        ));
        assert!(withdrawal.failed);
        assert_eq!(withdrawal.stage, WithdrawStage::TxBuilt);
    }
}

#[test]
fn the_signature_is_asked_over_the_hash_of_the_digest() {
    let stores = stores("true");
    let mut withdrawal = at(WithdrawStage::FundsLocked, &stores);
    withdrawal.on_public_key(&stores, Ok(key_reply())).expect("key");
    match withdrawal.on_transaction_built(&stores, Ok(built())).expect("built") {
        WithdrawAction::Sign { request, .. } => {
            assert_eq!(request.message_hash, SHA256_OF_COUNTING.to_vec());
            assert!(request.derivation_path.is_empty());
            assert_eq!(request.key_id.name, "dfx_test_key");
            assert_eq!(request.key_id.curve, EcdsaCurve::Secp256k1);
        }
        other => panic!("{:?}", other),
    }
}

#[test]
fn a_failed_signature_is_a_signing_error() {
    let stores = stores("true");
    let mut withdrawal = at(WithdrawStage::Digested, &stores);
    assert_eq!(
        withdrawal.on_signed(&stores, Err(text("sign_with_ecdsa failed"))),
        Err(BridgeError::SigningError(text("sign_with_ecdsa failed")))
    );
    assert!(withdrawal.failed);
    assert_eq!(withdrawal.stage, WithdrawStage::Digested);
}

#[test]
fn a_rejected_submission_records_nothing() {
    let mut stores = stores("true");
    let mut withdrawal = at(WithdrawStage::Signed, &stores);
    assert_eq!(
        withdrawal.on_submitted(&mut stores, Err(HttpFailure::Transport(text("rejected"))), 1),
        Err(BridgeError::ExecutionRejected(text("rejected")))
    );
    assert!(withdrawal.failed);
    assert_eq!(withdrawal.stage, WithdrawStage::Signed);
    assert!(get_finalized_transactions(&stores).is_empty());

    let mut withdrawal = at(WithdrawStage::Signed, &stores);
    assert_eq!(
        withdrawal.on_submitted(&mut stores, Err(HttpFailure::Malformed(text("Failed to get tx digest"))), 1),
        Err(BridgeError::ExecutionRejected(text("Failed to get tx digest")))
    );
    assert!(get_finalized_transactions(&stores).is_empty());
}

#[test]
fn answers_out_of_turn_leave_the_withdrawal_alone() {
    let mut stores = stores("true");
    let mut withdrawal = at(WithdrawStage::Requested, &stores);
    assert_eq!(withdrawal.on_public_key(&stores, Ok(key_reply())), Err(BridgeError::OutOfTurn));
    assert_eq!(withdrawal.on_transaction_built(&stores, Ok(built())), Err(BridgeError::OutOfTurn));
    assert_eq!(
        withdrawal.on_signed(&stores, Ok(SignWithECDSAReply { signature: vec![7; 64] })),
        Err(BridgeError::OutOfTurn)
    );
    assert_eq!(
        withdrawal.on_submitted(&mut stores, Ok(executed("x")), 1),
        Err(BridgeError::OutOfTurn)
    );
    assert_eq!(withdrawal, at(WithdrawStage::Requested, &stores));
    assert!(get_finalized_transactions(&stores).is_empty());

    let mut withdrawal = at(WithdrawStage::FundsLocked, &stores);
    assert_eq!(withdrawal.on_transaction_built(&stores, Ok(built())), Err(BridgeError::OutOfTurn));
    withdrawal.on_public_key(&stores, Ok(key_reply())).expect("key");
    assert_eq!(withdrawal.on_public_key(&stores, Ok(key_reply())), Err(BridgeError::OutOfTurn));

    let mut done = at(WithdrawStage::Signed, &stores);
    done.on_submitted(&mut stores, Ok(executed("x")), 1).expect("recorded");
    assert_eq!(done.on_submitted(&mut stores, Ok(executed("y")), 2), Err(BridgeError::OutOfTurn));
    assert_eq!(get_finalized_transactions(&stores).len(), 1);
}

#[test]
fn configuration_lost_on_the_way_fails_the_stage() {
    let mut stores = BridgeStores::open();
    insert(&mut stores, text(MINTER_TOKEN_KEY), text("ryjl3-tyaaa-aaaaa-aaaba-cai"));
    insert(&mut stores, text("ledger_canister_id_key"), text("mxzaz-hqaaa-aaaar-qaada-cai"));
    let (mut withdrawal, _) = Withdrawal::request(&stores, CALLER, args("50")).expect("accepted");
    assert_eq!(
        withdrawal.on_funds_locked(&stores, Ok(Natural::from_u64(1))),
        Err(BridgeError::ConfigMissing(text(IS_LOCAL_KEY)))
    );
    assert!(withdrawal.failed);
    assert_eq!(withdrawal.stage, WithdrawStage::FundsLocked);
    assert_eq!(withdrawal.block_index, Some(Natural::from_u64(1)));
}

#[test]
fn signer_follows_the_deployment_flag() {
    assert_eq!(mgmt_canister_id(&stores("true")), Ok(vec![0, 0, 0, 0, 0, 0, 0, 2, 1, 1]));
    assert_eq!(mgmt_canister_id(&stores("false")), Ok(vec![]));
    assert_eq!(
        mgmt_canister_id(&BridgeStores::open()),
        Err(BridgeError::ConfigMissing(text(IS_LOCAL_KEY)))
    );
    let mut broken = stores("true");
    insert(&mut broken, text("local_mgmt_principal_id_key"), text("nobody"));
    assert_eq!(
        mgmt_canister_id(&broken),
        Err(BridgeError::ConfigMissing(text("local_mgmt_principal_id_key")))
    );
}

#[test]
fn public_key_comes_raw_and_in_base64() {
    let response = get_public_key(&key_reply()).expect("a key");
    assert_eq!(response.public_key, key());
    assert_eq!(response.public_key_bs64, "AgkJCQkJCQkJCQkJCQkJCQkJCQkJCQkJCQkJCQkJCQkJ");
    let request = public_key_request();
    assert_eq!(request.canister_id, None);
    assert!(request.derivation_path.is_empty());
    assert_eq!(request.key_id.name, "dfx_test_key");
}

#[test]
fn explorer_links_name_the_network() {
    assert_eq!(explorer_link("testnet", "abc"), "https://suiscan.xyz/testnet/tx/abc");
    assert_eq!(explorer_link("mainnet", ""), "https://suiscan.xyz/mainnet/tx/");
}
