use most_bridge_backend::guard::InFlight;

#[test]
fn only_one_mint_cycle_is_in_flight() {
    let mut in_flight = InFlight::new();
    assert!(in_flight.begin_mint());
    assert!(!in_flight.begin_mint());
    assert!(!in_flight.begin_mint());
    in_flight.end_mint();
    assert!(in_flight.begin_mint());
}

#[test]
fn ending_a_cycle_that_never_began_frees_the_place() {
    let mut in_flight = InFlight::new();
    in_flight.end_mint();
    assert!(in_flight.begin_mint());
}

#[test]
fn each_caller_has_one_withdrawal_in_flight() {
    let mut in_flight = InFlight::new();
    assert!(!in_flight.is_withdrawing("alice"));
    assert!(in_flight.begin_withdrawal("alice"));
    assert!(in_flight.is_withdrawing("alice"));
    assert!(!in_flight.begin_withdrawal("alice"));
    assert!(in_flight.begin_withdrawal("bob"));
    assert!(!in_flight.begin_withdrawal("bob"));
    in_flight.end_withdrawal("alice");
    assert!(!in_flight.is_withdrawing("alice"));
    assert!(in_flight.is_withdrawing("bob"));
    assert!(in_flight.begin_withdrawal("alice"));
}

#[test]
fn a_refused_withdrawal_does_not_take_a_second_place() {
    let mut in_flight = InFlight::new();
    assert!(in_flight.begin_withdrawal("alice"));
    assert!(!in_flight.begin_withdrawal("alice"));
    in_flight.end_withdrawal("alice");
    assert!(!in_flight.is_withdrawing("alice"));
}

#[test]
fn ending_an_unknown_withdrawal_changes_nothing() {
    let mut in_flight = InFlight::new();
    in_flight.begin_withdrawal("alice");
    in_flight.end_withdrawal("carol");
    in_flight.end_withdrawal("");
    assert!(in_flight.is_withdrawing("alice"));
    assert!(!in_flight.is_withdrawing("carol"));
}

#[test]
fn minting_and_withdrawing_do_not_block_each_other() {
    let mut in_flight = InFlight::new();
    assert!(in_flight.begin_mint());
    assert!(in_flight.begin_withdrawal("alice"));
    in_flight.end_mint();
    assert!(in_flight.is_withdrawing("alice"));
    in_flight.end_withdrawal("alice");
    assert!(in_flight.begin_mint());
}

#[test]
fn callers_are_told_apart_exactly() {
    let mut in_flight = InFlight::new();
    in_flight.begin_withdrawal("alice");
    assert!(!in_flight.is_withdrawing("Alice"));
    assert!(!in_flight.is_withdrawing("alice "));
    assert!(in_flight.begin_withdrawal("Alice"));
}
