use most_bridge_backend::constants::PROCESSED_TX_DIGEST_KEY;
use most_bridge_backend::errors::BridgeError;
use most_bridge_backend::http::HttpFailure;
use most_bridge_backend::mint::{MintAction, MintCycle, MintOutcome};
use most_bridge_backend::models::{
    Id, NextCursor, ParsedJson, Receipt, ReceiptResult, ReceiptResultData,
};
use most_bridge_backend::natural::Natural;
use most_bridge_backend::store::{get, get_minted_transactions, insert, BridgeStores, KeyValue};

const LEDGER_ACCOUNT: &str = "ryjl3-tyaaa-aaaaa-aaaba-cai";
const LEDGER_ACCOUNT_BYTES: [u8; 10] = [0, 0, 0, 0, 0, 0, 0, 2, 1, 1];
const ANONYMOUS: &str = "2vxsx-fae";

fn text(s: &str) -> String {
    s.to_string()
}

fn natural(n: u64) -> Natural {
    Natural::from_u64(n)
}

fn event(digest: &str, amount: &str, principal: &str) -> ReceiptResultData {
    ReceiptResultData {
        id: Id { tx_digest: text(digest), event_seq: text("0") },
        package_id: text("0xpkg"),
        transaction_module: text("ckSuiHelper"),
        sender: text("0xsender"),
        type_field: text("0xpkg::ckSuiHelper::Deposit"),
        parsed_json: ParsedJson {
            from: text("0xsender"),
            minter_address: text("0xminter"),
            principal_address: text(principal),
            value: text(amount),
        },
        bcs: text(""),
        timestamp_ms: text("1700000000000"),
    }
}

fn page(events: Vec<ReceiptResultData>, next: &str) -> Receipt {
    Receipt {
        jsonrpc: text("2.0"),
        result: ReceiptResult {
            data: events,
            next_cursor: NextCursor { tx_digest: text(next), event_seq: text("0") },
            has_next_page: false,
        },
        id: 1,
    }
}

fn cursor(stores: &BridgeStores) -> Option<String> {
    get(stores, text(PROCESSED_TX_DIGEST_KEY))
}

/// Drives a cycle to its end against a ledger that always has `balance` and
/// confirms every transfer, numbering blocks from `first_block`.
fn run(stores: &mut BridgeStores, receipt: &Receipt, balance: u64, first_block: u64) -> MintCycle {
    let mut cycle = MintCycle::begin(stores, receipt).expect("a cycle");
    let mut block = first_block;
    let mut action = cycle.next_action();
    loop {
        action = match action {
            MintAction::Finished => return cycle,
            MintAction::CheckBalance => cycle.on_balance(&natural(balance)).expect("in turn"),
            MintAction::Transfer { .. } => {
                let next = cycle.on_transfer(stores, Ok(natural(block)), 1_700_000_000).expect("in turn");
                block += 1;
                next
            }
        };
    }
}

#[test]
fn one_event_with_enough_balance_is_minted() {
    let mut stores = BridgeStores::open();
    assert_eq!(cursor(&stores), None);
    let receipt = page(vec![event("d1", "100", LEDGER_ACCOUNT)], "n1");

    let mut cycle = MintCycle::begin(&stores, &receipt).expect("a cycle");
    assert_eq!(cycle.pending.len(), 1);
    assert_eq!(cycle.next_action(), MintAction::CheckBalance);

    let action = cycle.on_balance(&natural(500)).expect("in turn");
    assert_eq!(action, MintAction::Transfer { to: LEDGER_ACCOUNT_BYTES.to_vec(), amount: natural(100) });
    assert_eq!(cursor(&stores), None);
    assert!(get_minted_transactions(&stores).is_empty());

    let action = cycle.on_transfer(&mut stores, Ok(natural(42)), 1_700_000_000_000_000_000).expect("in turn");
    assert_eq!(action, MintAction::Finished);
    assert_eq!(cursor(&stores), Some(text("n1")));
    assert_eq!(
        get_minted_transactions(&stores),
        vec![KeyValue(text(
            "{\"block_index\": \"42\",\"date\":\"1700000000000000000\", \"amount\": \"100\",\"from\": \"0xsender\", \"to\": \"ryjl3-tyaaa-aaaaa-aaaba-cai\" }"
        ))]
    );
    assert_eq!(stores.minted.get(&text("42")).is_some(), true);
    assert_eq!(cycle.outcomes, vec![MintOutcome::Minted(natural(42))]);
    assert_eq!(cycle.position, 1);
}

#[test]
fn an_empty_page_finishes_at_once() {
    let stores = BridgeStores::open();
    let cycle = MintCycle::begin(&stores, &page(vec![], "n0")).expect("a cycle");
    assert_eq!(cycle.next_action(), MintAction::Finished);
    assert!(cycle.pending.is_empty());
    assert_eq!(cycle.next_cursor, "n0");
}

#[test]
fn processing_stops_at_the_cursor() {
    let mut stores = BridgeStores::open();
    insert(&mut stores, text(PROCESSED_TX_DIGEST_KEY), text("d3"));
    let receipt = page(
        vec![event("d5", "5", LEDGER_ACCOUNT), event("d4", "4", ANONYMOUS), event("d3", "3", LEDGER_ACCOUNT), event("d2", "2", LEDGER_ACCOUNT)],
        "n5",
    );
    let cycle = MintCycle::begin(&stores, &receipt).expect("a cycle");
    let taken: Vec<&str> = cycle.pending.iter().map(|p| p.tx_digest.as_str()).collect();
    assert_eq!(taken, vec!["d5", "d4"]);
    assert_eq!(cycle.pending[1].to, vec![4]);
    assert_eq!(cycle.pending[1].amount, natural(4));
}

#[test]
fn a_cursor_at_the_head_leaves_nothing_pending() {
    let mut stores = BridgeStores::open();
    insert(&mut stores, text(PROCESSED_TX_DIGEST_KEY), text("d5"));
    let receipt = page(vec![event("d5", "5", LEDGER_ACCOUNT), event("d4", "4", LEDGER_ACCOUNT)], "n5");
    let cycle = run(&mut stores, &receipt, 1000, 1);
    assert!(cycle.pending.is_empty());
    assert!(get_minted_transactions(&stores).is_empty());
    assert_eq!(cursor(&stores), Some(text("d5")));
}

#[test]
fn a_cursor_outside_the_page_leaves_every_event_pending() {
    let mut stores = BridgeStores::open();
    insert(&mut stores, text(PROCESSED_TX_DIGEST_KEY), text("d0"));
    let receipt = page(vec![event("d2", "2", LEDGER_ACCOUNT), event("d1", "1", LEDGER_ACCOUNT)], "n2");
    let cycle = MintCycle::begin(&stores, &receipt).expect("a cycle");
    assert_eq!(cycle.pending.len(), 2);
}

#[test]
fn without_a_cursor_an_empty_digest_does_not_stop_the_page() {
    let stores = BridgeStores::open();
    let receipt = page(vec![event("", "2", LEDGER_ACCOUNT), event("d1", "1", LEDGER_ACCOUNT)], "n2");
    let cycle = MintCycle::begin(&stores, &receipt).expect("a cycle");
    assert_eq!(cycle.pending.len(), 2);
}

#[test]
fn replay_from_any_cursor_mints_only_newer_events() {
    let digests = ["d6", "d5", "d4", "d3", "d2", "d1"];
    let events: Vec<ReceiptResultData> =
        digests.iter().map(|d| event(d, "10", LEDGER_ACCOUNT)).collect();
    for at in 0..digests.len() {
        let mut stores = BridgeStores::open();
        insert(&mut stores, text(PROCESSED_TX_DIGEST_KEY), text(digests[at]));
        let cycle = run(&mut stores, &page(events.clone(), digests[0]), 1000, 1);
        let taken: Vec<&str> = cycle.pending.iter().map(|p| p.tx_digest.as_str()).collect();
        assert_eq!(taken, digests[..at].to_vec());
        assert_eq!(get_minted_transactions(&stores).len(), at);
        assert_eq!(cycle.outcomes.len(), at);

        let again = run(&mut stores, &page(events.clone(), digests[0]), 1000, 100);
        assert!(again.pending.is_empty());
        assert_eq!(get_minted_transactions(&stores).len(), at);
    }
}

#[test]
fn low_balance_skips_without_transfer_or_record() {
    let mut stores = BridgeStores::open();
    insert(&mut stores, text(PROCESSED_TX_DIGEST_KEY), text("d0"));
    let receipt = page(vec![event("d1", "100", LEDGER_ACCOUNT)], "n1");
    let mut cycle = MintCycle::begin(&stores, &receipt).expect("a cycle");
    let action = cycle.on_balance(&natural(99)).expect("in turn");
    assert_eq!(action, MintAction::Finished);
    assert_eq!(cycle.outcomes, vec![MintOutcome::Skipped]);
    assert!(!cycle.awaiting_transfer);
    assert!(get_minted_transactions(&stores).is_empty());
    assert_eq!(cursor(&stores), Some(text("d0")));
    assert_eq!(
        cycle.on_transfer(&mut stores, Ok(natural(1)), 0),
        Err(BridgeError::OutOfTurn)
    );
    assert!(get_minted_transactions(&stores).is_empty());

    let retried = MintCycle::begin(&stores, &receipt).expect("a cycle");
    assert_eq!(retried.pending.len(), 1);
}

#[test]
fn a_balance_equal_to_the_amount_covers_it() {
    let stores = BridgeStores::open();
    let mut cycle = MintCycle::begin(&stores, &page(vec![event("d1", "100", LEDGER_ACCOUNT)], "n1")).expect("a cycle");
    assert_eq!(
        cycle.on_balance(&natural(100)),
        Ok(MintAction::Transfer { to: LEDGER_ACCOUNT_BYTES.to_vec(), amount: natural(100) })
    );
}

#[test]
fn amounts_beyond_machine_integers_are_compared_exactly() {
    let stores = BridgeStores::open();
    let receipt = page(vec![event("d1", "340282366920938463463374607431768211457", LEDGER_ACCOUNT)], "n1");
    let mut cycle = MintCycle::begin(&stores, &receipt).expect("a cycle");
    let balance = Natural::parse("340282366920938463463374607431768211456").expect("a number");
    assert_eq!(cycle.on_balance(&balance), Ok(MintAction::Finished));
    assert_eq!(cycle.outcomes, vec![MintOutcome::Skipped]);
}

#[test]
fn a_skipped_event_does_not_hold_up_the_next() {
    let mut stores = BridgeStores::open();
    let receipt = page(vec![event("d2", "900", LEDGER_ACCOUNT), event("d1", "100", ANONYMOUS)], "n2");
    let mut cycle = MintCycle::begin(&stores, &receipt).expect("a cycle");
    assert_eq!(cycle.on_balance(&natural(500)), Ok(MintAction::CheckBalance));
    assert_eq!(
        cycle.on_balance(&natural(500)),
        Ok(MintAction::Transfer { to: vec![4], amount: natural(100) })
    );
    assert_eq!(cycle.on_transfer(&mut stores, Ok(natural(7)), 5), Ok(MintAction::Finished));
    assert_eq!(cycle.outcomes, vec![MintOutcome::Skipped, MintOutcome::Minted(natural(7))]);
    assert_eq!(get_minted_transactions(&stores).len(), 1);
    assert_eq!(cursor(&stores), Some(text("n2")));
}

#[test]
fn a_failed_transfer_stores_nothing_and_goes_on() {
    let mut stores = BridgeStores::open();
    let receipt = page(vec![event("d2", "10", LEDGER_ACCOUNT), event("d1", "20", LEDGER_ACCOUNT)], "n2");
    let mut cycle = MintCycle::begin(&stores, &receipt).expect("a cycle");
    cycle.on_balance(&natural(500)).expect("in turn");
    let action = cycle.on_transfer(&mut stores, Err(text("ledger busy")), 5).expect("in turn");
    assert_eq!(action, MintAction::CheckBalance);
    assert_eq!(cycle.outcomes, vec![MintOutcome::Failed(text("ledger busy"))]);
    assert_eq!(cursor(&stores), None);
    assert!(get_minted_transactions(&stores).is_empty());

    cycle.on_balance(&natural(500)).expect("in turn");
    assert_eq!(cycle.on_transfer(&mut stores, Ok(natural(3)), 6), Ok(MintAction::Finished));
    assert_eq!(cursor(&stores), Some(text("n2")));
    assert_eq!(get_minted_transactions(&stores).len(), 1);
}

#[test]
fn the_cursor_only_moves_to_the_page_cursor() {
    let mut stores = BridgeStores::open();
    insert(&mut stores, text(PROCESSED_TX_DIGEST_KEY), text("d1"));
    let receipt = page(vec![event("d3", "1", LEDGER_ACCOUNT), event("d2", "1", LEDGER_ACCOUNT), event("d1", "1", LEDGER_ACCOUNT)], "d3");
    let mut cycle = MintCycle::begin(&stores, &receipt).expect("a cycle");
    let mut seen = vec![cursor(&stores)];
    cycle.on_balance(&natural(0)).expect("in turn");
    seen.push(cursor(&stores));
    cycle.on_balance(&natural(5)).expect("in turn");
    seen.push(cursor(&stores));
    cycle.on_transfer(&mut stores, Ok(natural(1)), 0).expect("in turn");
    seen.push(cursor(&stores));
    assert_eq!(
        seen,
        vec![Some(text("d1")), Some(text("d1")), Some(text("d1")), Some(text("d3"))]
    );
}

#[test]
fn a_malformed_recipient_aborts_the_cycle() {
    let mut stores = BridgeStores::open();
    insert(&mut stores, text(PROCESSED_TX_DIGEST_KEY), text("d0"));
    let receipt = page(vec![event("d2", "10", LEDGER_ACCOUNT), event("d1", "10", "nobody")], "n2");
    match MintCycle::begin(&stores, &receipt) {
        Err(BridgeError::MalformedResponse(_)) => {}
        other => panic!("{:?}", other),
    }
    assert_eq!(cursor(&stores), Some(text("d0")));
    assert!(get_minted_transactions(&stores).is_empty());
}

#[test]
fn a_malformed_amount_aborts_the_cycle() {
    let stores = BridgeStores::open();
    for amount in ["", "ten", "-1", "1.5"] {
        let receipt = page(vec![event("d1", amount, LEDGER_ACCOUNT)], "n1");
        assert!(matches!(
            MintCycle::begin(&stores, &receipt),
            Err(BridgeError::MalformedResponse(_))
        ));
    }
}

#[test]
fn a_malformed_event_behind_the_cursor_is_not_read() {
    let mut stores = BridgeStores::open();
    insert(&mut stores, text(PROCESSED_TX_DIGEST_KEY), text("d2"));
    let receipt = page(vec![event("d3", "1", LEDGER_ACCOUNT), event("d2", "1", LEDGER_ACCOUNT), event("d1", "x", "y")], "n3");
    let cycle = MintCycle::begin(&stores, &receipt).expect("a cycle");
    assert_eq!(cycle.pending.len(), 1);
}

#[test]
fn answers_out_of_turn_change_nothing() {
    let mut stores = BridgeStores::open();
    let receipt = page(vec![event("d1", "10", LEDGER_ACCOUNT)], "n1");
    let mut cycle = MintCycle::begin(&stores, &receipt).expect("a cycle");
    assert_eq!(cycle.on_transfer(&mut stores, Ok(natural(1)), 0), Err(BridgeError::OutOfTurn));
    assert_eq!(cycle.position, 0);
    assert!(cycle.outcomes.is_empty());
    assert_eq!(cursor(&stores), None);

    cycle.on_balance(&natural(10)).expect("in turn");
    assert_eq!(cycle.on_balance(&natural(10)), Err(BridgeError::OutOfTurn));
    assert!(cycle.awaiting_transfer);
    assert_eq!(
        cycle.next_action(),
        MintAction::Transfer { to: LEDGER_ACCOUNT_BYTES.to_vec(), amount: natural(10) }
    );

    cycle.on_transfer(&mut stores, Ok(natural(1)), 0).expect("in turn");
    assert_eq!(cycle.on_balance(&natural(10)), Err(BridgeError::OutOfTurn));
    assert_eq!(cycle.on_transfer(&mut stores, Ok(natural(2)), 0), Err(BridgeError::OutOfTurn));
    assert_eq!(get_minted_transactions(&stores).len(), 1);
}

#[test]
fn records_of_one_cycle_are_keyed_by_block() {
    let mut stores = BridgeStores::open();
    let receipt = page(vec![event("d2", "7", LEDGER_ACCOUNT), event("d1", "8", ANONYMOUS)], "n2");
    run(&mut stores, &receipt, 1000, 5);
    assert!(stores.minted.get(&text("5")).expect("a record").contains("\"amount\": \"7\""));
    assert!(stores.minted.get(&text("6")).expect("a record").contains("\"amount\": \"8\""));
    assert_eq!(get_minted_transactions(&stores).len(), 2);
}

#[test]
fn a_poll_that_did_not_come_back_is_a_transport_error() {
    let stores = BridgeStores::open();
    assert_eq!(
        MintCycle::on_polled(&stores, Err(HttpFailure::Transport(text("timeout")))),
        Err(BridgeError::TransportError(text("timeout")))
    );
    assert_eq!(
        MintCycle::on_polled(&stores, Err(HttpFailure::Malformed(text("not json")))),
        Err(BridgeError::MalformedResponse(text("not json")))
    );
}

#[test]
fn a_polled_page_starts_a_cycle() {
    let stores = BridgeStores::open();
    let receipt = page(vec![event("d1", "100", LEDGER_ACCOUNT)], "n1");
    assert_eq!(
        MintCycle::on_polled(&stores, Ok(receipt.clone())),
        MintCycle::begin(&stores, &receipt)
    );
    assert!(matches!(
        MintCycle::on_polled(&stores, Ok(page(vec![event("d1", "x", LEDGER_ACCOUNT)], "n1"))),
        Err(BridgeError::MalformedResponse(_))
    ));
}

#[test]
fn outcomes_name_their_failure() {
    assert_eq!(MintOutcome::Minted(natural(1)).error(), None);
    assert_eq!(MintOutcome::Skipped.error(), Some(BridgeError::InsufficientBalance));
    assert_eq!(
        MintOutcome::Failed(text("busy")).error(),
        Some(BridgeError::LedgerError(text("busy")))
    );
}
