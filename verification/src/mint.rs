//! Event ingestion: from a page of deposit events to mints on the ledger.
//!
//! A cycle starts from the page that the source chain returned for the stored
//! cursor. The events of the page up to the one that the cursor names are
//! pending; they are taken in the order of the page. For each, the relay asks
//! for its own balance, skips the event if the balance does not cover it, and
//! otherwise transfers the amount. The module decides; whoever drives it
//! performs each action and hands back the answer.
//!
//! The cursor moves at each confirmed transfer, to the cursor that came with
//! the page. A skipped or failed event moves nothing.

use vstd::prelude::*;
use crate::constants::PROCESSED_TX_DIGEST_KEY;
use crate::errors::BridgeError;
use crate::http::HttpFailure;
use crate::models::{Receipt, ReceiptResultData};
use crate::natural::{decimal_text, parsed_natural, Natural};
use crate::principal::{parse_principal, principal_of_text};
use crate::records::{mint_record_text, MintRecord};
use crate::store::{insert, insert_mint_tx, BridgeStores};

verus! {

/// The cursor that a configuration holds, if it holds one.
pub open spec fn stored_cursor(config: Map<Seq<char>, Seq<char>>) -> Option<Seq<char>> {
    if config.contains_key(PROCESSED_TX_DIGEST_KEY@) {
        Some(config[PROCESSED_TX_DIGEST_KEY@])
    } else {
        None
    }
}

/// Whether `event` is the one that `cursor` names.
pub open spec fn is_cursor(event: ReceiptResultData, cursor: Option<Seq<char>>) -> bool {
    cursor == Some(event.id.tx_digest@)
}

/// Whether the first `count` events of a page are the pending ones: none of
/// them is named by the cursor, and the page ends there or the next event is
/// the one that the cursor names.
pub open spec fn is_pending_count(
    events: Seq<ReceiptResultData>,
    cursor: Option<Seq<char>>,
    count: int,
) -> bool {
    &&& 0 <= count <= events.len()
    &&& forall|i: int| 0 <= i < count ==> !is_cursor(#[trigger] events[i], cursor)
    &&& count < events.len() ==> is_cursor(events[count], cursor)
}

/// Whether the payload of `event` can be read: its recipient is the text of a
/// principal and its amount is a natural number.
pub open spec fn is_well_formed(event: ReceiptResultData) -> bool {
    &&& principal_of_text(event.parsed_json.principal_address@) is Some
    &&& parsed_natural(event.parsed_json.value@) is Some
}

/// Whether the payload of some pending event of a page cannot be read.
pub open spec fn has_malformed_pending(
    events: Seq<ReceiptResultData>,
    cursor: Option<Seq<char>>,
) -> bool {
    exists|count: int, i: int|
        #![trigger is_pending_count(events, cursor, count), events[i]]
        is_pending_count(events, cursor, count) && 0 <= i < count && !is_well_formed(events[i])
}

/// The cursor after an event was handled: the page's cursor if the event was
/// minted, the cursor as it was if not.
pub open spec fn cursor_after(
    before: Option<Seq<char>>,
    page_cursor: Seq<char>,
    minted: bool,
) -> Option<Seq<char>> {
    if minted {
        Some(page_cursor)
    } else {
        before
    }
}

/// A deposit event whose payload has been read.
#[derive(Debug, PartialEq)]
pub struct PendingMint {
    /// The transaction that emitted the event.
    pub tx_digest: String,
    /// The sender on the source chain.
    pub from: String,
    /// The recipient as the event names it.
    pub principal_address: String,
    /// The amount as the event states it.
    pub value: String,
    /// The recipient's principal.
    pub to: Vec<u8>,
    /// The amount.
    pub amount: Natural,
}

impl PendingMint {
    /// Whether this is what `event` asks to mint.
    pub open spec fn reads(self, event: ReceiptResultData) -> bool {
        &&& self.tx_digest@ == event.id.tx_digest@
        &&& self.from@ == event.parsed_json.from@
        &&& self.principal_address@ == event.parsed_json.principal_address@
        &&& self.value@ == event.parsed_json.value@
        &&& principal_of_text(event.parsed_json.principal_address@) == Some(self.to@)
        &&& parsed_natural(event.parsed_json.value@) == Some(self.amount.value())
    }
}

/// What became of a pending event.
#[derive(Debug, PartialEq)]
pub enum MintOutcome {
    /// The amount was transferred in the ledger block of the given index.
    Minted(Natural),
    /// The bridge's balance did not cover the amount. Nothing was transferred.
    Skipped,
    /// The ledger did not make the transfer. Carries its message.
    Failed(String),
}

impl MintOutcome {
    /// The failure that the outcome stands for, if it is one: a skipped event
    /// is a balance that did not suffice, a failed one an error of the ledger.
    pub fn error(&self) -> (error: Option<BridgeError>)
        ensures
            match *self {
                MintOutcome::Minted(_) => error is None,
                MintOutcome::Skipped => error == Some(BridgeError::InsufficientBalance),
                MintOutcome::Failed(detail) => error matches Some(BridgeError::LedgerError(d))
                    && d@ == detail@,
            },
    {
        match self {
            MintOutcome::Minted(_) => None,
            MintOutcome::Skipped => Some(BridgeError::InsufficientBalance),
            MintOutcome::Failed(detail) => Some(BridgeError::LedgerError(detail.clone())),
        }
    }
}

/// What the relay does next.
#[derive(Debug, PartialEq)]
pub enum MintAction {
    /// Ask the ledger for the bridge's own balance.
    CheckBalance,
    /// Transfer `amount` from the bridge's account to the account of `to`.
    Transfer { to: Vec<u8>, amount: Natural },
    /// Nothing: every pending event has been handled.
    Finished,
}

/// What a cycle waits for.
#[derive(Clone, Copy, Debug, PartialEq, Eq, Structural)]
pub enum MintPhase {
    AwaitingBalance,
    AwaitingTransfer,
    Done,
}

/// One cycle over a page of events.
#[derive(Debug, PartialEq)]
pub struct MintCycle {
    /// The pending events, in the order of the page.
    pub pending: Vec<PendingMint>,
    /// How many of them have been handled.
    pub position: usize,
    /// The cursor that came with the page.
    pub next_cursor: String,
    /// Whether a transfer for the event at `position` is under way.
    pub awaiting_transfer: bool,
    /// What became of each handled event.
    pub outcomes: Vec<MintOutcome>,
}

impl MintCycle {
    /// What the cycle waits for.
    pub open spec fn phase(self) -> MintPhase {
        if self.position >= self.pending@.len() {
            MintPhase::Done
        } else if self.awaiting_transfer {
            MintPhase::AwaitingTransfer
        } else {
            MintPhase::AwaitingBalance
        }
    }

    /// Whether `action` is what the cycle asks for in its phase.
    pub open spec fn asks_for(self, action: MintAction) -> bool {
        match self.phase() {
            MintPhase::Done => action is Finished,
            MintPhase::AwaitingBalance => action is CheckBalance,
            MintPhase::AwaitingTransfer => {
                &&& action matches MintAction::Transfer { to, amount }
                &&& to@ == self.pending@[self.position as int].to@
                &&& amount == self.pending@[self.position as int].amount
            },
        }
    }

    /// Whether every pending event up to `position`, and no other, has its
    /// outcome.
    pub open spec fn handled_in_order(self) -> bool {
        self.outcomes@.len() == self.position <= self.pending@.len()
    }

    /// Whether this is the cycle that starts on the page `events` with the
    /// cursor `page_cursor` when `cursor` is stored: nothing is handled, and
    /// the pending events are those of the page, read, in its order.
    pub open spec fn starts(
        self,
        events: Seq<ReceiptResultData>,
        cursor: Option<Seq<char>>,
        page_cursor: Seq<char>,
    ) -> bool {
        &&& is_pending_count(events, cursor, self.pending@.len() as int)
        &&& forall|i: int|
            0 <= i < self.pending@.len() ==> (#[trigger] self.pending@[i]).reads(events[i])
        &&& self.position == 0
        &&& !self.awaiting_transfer
        &&& self.outcomes@.len() == 0
        &&& self.next_cursor@ == page_cursor
    }

    /// Whether `after` is this cycle with the event at `position` handled with
    /// `outcome`.
    pub open spec fn advances_to(self, after: MintCycle, outcome: MintOutcome) -> bool {
        &&& after.pending == self.pending
        &&& after.position == self.position + 1
        &&& after.next_cursor == self.next_cursor
        &&& !after.awaiting_transfer
        &&& after.outcomes@ == self.outcomes@.push(outcome)
    }

    /// Starts a cycle over the page `receipt`, which the source chain returned
    /// for the stored cursor. Fails, with nothing changed, if the payload of a
    /// pending event cannot be read.
    pub fn begin(stores: &BridgeStores, receipt: &Receipt) -> (cycle: Result<MintCycle, BridgeError>)
        ensures
            cycle matches Ok(c) ==> c.starts(
                receipt.result.data@,
                stored_cursor(stores.config@),
                receipt.result.next_cursor.tx_digest@,
            ),
            cycle matches Err(e) ==> e is MalformedResponse,
            cycle is Err <==> has_malformed_pending(
                receipt.result.data@,
                stored_cursor(stores.config@),
            ),
    {
        let cursor = stores.config.get(&PROCESSED_TX_DIGEST_KEY.to_owned());
        let events = &receipt.result.data;
        let ghost page = receipt.result.data@;
        let ghost at = stored_cursor(stores.config@);
        let mut pending: Vec<PendingMint> = Vec::new();
        let mut i: usize = 0;
        while i < events.len()
            invariant
                i <= events.len(),
                events@ == page,
                page == receipt.result.data@,
                pending@.len() == i,
                at == stored_cursor(stores.config@),
                cursor is Some <==> at is Some,
                cursor matches Some(c) ==> at == Some(c@),
                forall|j: int| 0 <= j < i ==> !is_cursor(#[trigger] page[j], at),
                forall|j: int| 0 <= j < i ==> (#[trigger] pending@[j]).reads(page[j]),
                forall|j: int| 0 <= j < i ==> is_well_formed(#[trigger] page[j]),
            ensures
                is_pending_count(page, at, i as int),
                pending@.len() == i,
                forall|j: int| 0 <= j < i ==> (#[trigger] pending@[j]).reads(page[j]),
                forall|j: int| 0 <= j < i ==> is_well_formed(#[trigger] page[j]),
            decreases events.len() - i,
        {
            let event = &events[i];
            let stop = match &cursor {
                Some(c) => *c == event.id.tx_digest,
                None => false,
            };
            if stop {
                assert(is_cursor(page[i as int], at));
                break;
            }
            let to = match parse_principal(event.parsed_json.principal_address.as_str()) {
                Some(to) => to,
                None => {
                    proof {
                        malformed_event_is_pending(page, at, i as int);
                    }
                    return Err(
                        BridgeError::MalformedResponse("recipient is not a principal".to_owned()),
                    );
                },
            };
            let amount = match Natural::parse(event.parsed_json.value.as_str()) {
                Some(amount) => amount,
                None => {
                    proof {
                        malformed_event_is_pending(page, at, i as int);
                    }
                    return Err(
                        BridgeError::MalformedResponse("amount is not a number".to_owned()),
                    );
                },
            };
            pending.push(
                PendingMint {
                    tx_digest: event.id.tx_digest.clone(),
                    from: event.parsed_json.from.clone(),
                    principal_address: event.parsed_json.principal_address.clone(),
                    value: event.parsed_json.value.clone(),
                    to,
                    amount,
                },
            );
            i += 1;
        }
        proof {
            assert forall|count: int, k: int|
                #![trigger is_pending_count(page, at, count), page[k]]
                is_pending_count(page, at, count) && 0 <= k < count implies is_well_formed(
                page[k],
            ) by {
                pending_count_is_unique(page, at, count, i as int);
            }
        }
        Ok(
            MintCycle {
                pending,
                position: 0,
                next_cursor: receipt.result.next_cursor.tx_digest.clone(),
                awaiting_transfer: false,
                outcomes: Vec::new(),
            },
        )
    }

    /// Takes the source chain's answer to the poll: a page of events, or why
    /// there is none. A page starts a cycle as `begin` does. A poll that did
    /// not come back is a transport error, an answer that could not be read a
    /// malformed response; either ends the cycle before it starts.
    pub fn on_polled(stores: &BridgeStores, outcome: Result<Receipt, HttpFailure>) -> (cycle:
        Result<MintCycle, BridgeError>)
        ensures
            match outcome {
                Ok(receipt) => {
                    &&& cycle is Err <==> has_malformed_pending(
                        receipt.result.data@,
                        stored_cursor(stores.config@),
                    )
                    &&& cycle matches Err(e) ==> e is MalformedResponse
                    &&& cycle matches Ok(c) ==> c.starts(
                        receipt.result.data@,
                        stored_cursor(stores.config@),
                        receipt.result.next_cursor.tx_digest@,
                    )
                },
                Err(HttpFailure::Transport(detail)) => cycle matches Err(
                    BridgeError::TransportError(d),
                ) && d == detail,
                Err(HttpFailure::Malformed(detail)) => cycle matches Err(
                    BridgeError::MalformedResponse(d),
                ) && d == detail,
            },
    {
        match outcome {
            Ok(receipt) => MintCycle::begin(stores, &receipt),
            Err(HttpFailure::Transport(detail)) => Err(BridgeError::TransportError(detail)),
            Err(HttpFailure::Malformed(detail)) => Err(BridgeError::MalformedResponse(detail)),
        }
    }

    /// What the cycle asks for in its phase.
    pub fn next_action(&self) -> (action: MintAction)
        ensures
            self.asks_for(action),
    {
        if self.position >= self.pending.len() {
            MintAction::Finished
        } else if self.awaiting_transfer {
            let event = &self.pending[self.position];
            MintAction::Transfer { to: event.to.clone(), amount: event.amount.clone() }
        } else {
            MintAction::CheckBalance
        }
    }

    /// Takes the bridge's balance for the event at `position`. A balance
    /// below the event's amount skips the event: no transfer is asked for,
    /// and nothing is recorded or stored. Any other balance asks for the
    /// transfer. An answer that the cycle does not wait for changes nothing.
    pub fn on_balance(&mut self, balance: &Natural) -> (action: Result<MintAction, BridgeError>)
        ensures
            old(self).phase() is AwaitingBalance <==> action is Ok,
            action matches Err(e) ==> e is OutOfTurn && *final(self) == *old(self),
            action matches Ok(a) ==> final(self).asks_for(a),
            old(self).handled_in_order() ==> final(self).handled_in_order(),
            action is Ok && balance.value() < old(self).pending@[old(self).position as int].amount.value()
                ==> old(self).advances_to(*final(self), MintOutcome::Skipped) && !(action
                matches Ok(MintAction::Transfer { .. })),
            action is Ok && balance.value() >= old(self).pending@[old(self).position as int].amount.value() ==> {
                &&& final(self).pending == old(self).pending
                &&& final(self).position == old(self).position
                &&& final(self).next_cursor == old(self).next_cursor
                &&& final(self).outcomes == old(self).outcomes
                &&& final(self).awaiting_transfer
            },
    {
        if self.position >= self.pending.len() || self.awaiting_transfer {
            return Err(BridgeError::OutOfTurn);
        }
        if balance.lt(&self.pending[self.position].amount) {
            self.outcomes.push(MintOutcome::Skipped);
            self.position = self.position + 1;
        } else {
            self.awaiting_transfer = true;
        }
        Ok(self.next_action())
    }

    /// Takes the ledger's answer to the transfer for the event at `position`:
    /// the index of the block that holds the transfer, or the ledger's
    /// message. A confirmed transfer moves the cursor to the page's cursor and
    /// appends the record of the mint, dated `now`, under the block index. A
    /// failed one stores nothing. An answer that the cycle does not wait for
    /// changes nothing.
    pub fn on_transfer(
        &mut self,
        stores: &mut BridgeStores,
        outcome: Result<Natural, String>,
        now: u64,
    ) -> (action: Result<MintAction, BridgeError>)
        ensures
            old(self).phase() is AwaitingTransfer <==> action is Ok,
            action matches Err(e) ==> e is OutOfTurn && *final(self) == *old(self) && final(stores).config@ == old(stores).config@ && final(stores).minted@ == old(stores).minted@,
            action matches Ok(a) ==> final(self).asks_for(a),
            old(self).handled_in_order() ==> final(self).handled_in_order(),
            final(stores).finalized@ == old(stores).finalized@,
            action is Ok ==> (match outcome {
                Ok(block_index) => {
                    let event = old(self).pending@[old(self).position as int];
                    &&& old(self).advances_to(*final(self), MintOutcome::Minted(block_index))
                    &&& final(stores).config@ == old(stores).config@.insert(
                        PROCESSED_TX_DIGEST_KEY@,
                        old(self).next_cursor@,
                    )
                    &&& final(stores).minted@ == old(stores).minted@.insert(
                        block_index.text(),
                        mint_record_text(
                            block_index.text(),
                            decimal_text(now as nat),
                            event.value@,
                            event.from@,
                            event.principal_address@,
                        ),
                    )
                },
                Err(detail) => {
                    &&& old(self).advances_to(*final(self), MintOutcome::Failed(detail))
                    &&& final(stores).config@ == old(stores).config@
                    &&& final(stores).minted@ == old(stores).minted@
                },
            }),
            stored_cursor(final(stores).config@) == cursor_after(
                stored_cursor(old(stores).config@),
                old(self).next_cursor@,
                action is Ok && outcome is Ok,
            ),
    {
        if self.position >= self.pending.len() || !self.awaiting_transfer {
            return Err(BridgeError::OutOfTurn);
        }
        match outcome {
            Ok(block_index) => {
                let event = &self.pending[self.position];
                let record = MintRecord {
                    ledger_block_index: block_index.clone(),
                    timestamp: now,
                    amount: event.value.clone(),
                    source_address: event.from.clone(),
                    destination_principal: event.principal_address.clone(),
                };
                insert(stores, PROCESSED_TX_DIGEST_KEY.to_owned(), self.next_cursor.clone());
                insert_mint_tx(stores, record.to_key(), record.to_text());
                self.outcomes.push(MintOutcome::Minted(block_index));
            },
            Err(detail) => {
                self.outcomes.push(MintOutcome::Failed(detail));
            },
        }
        self.position = self.position + 1;
        self.awaiting_transfer = false;
        Ok(self.next_action())
    }
}

/// A page has one number of pending events.
pub proof fn pending_count_is_unique(
    events: Seq<ReceiptResultData>,
    cursor: Option<Seq<char>>,
    first: int,
    second: int,
)
    requires
        is_pending_count(events, cursor, first),
        is_pending_count(events, cursor, second),
    ensures
        first == second,
{
    if first < second {
        assert(!is_cursor(events[first], cursor));
    } else if second < first {
        assert(!is_cursor(events[second], cursor));
    }
}

/// A page with an unreadable event before any that the cursor names has an
/// unreadable pending event.
proof fn malformed_event_is_pending(
    events: Seq<ReceiptResultData>,
    cursor: Option<Seq<char>>,
    at: int,
)
    requires
        0 <= at < events.len(),
        forall|j: int| 0 <= j <= at ==> !is_cursor(#[trigger] events[j], cursor),
        !is_well_formed(events[at]),
    ensures
        has_malformed_pending(events, cursor),
{
    pending_count_reaches(events, cursor, at);
    let count = choose|count: int| #[trigger] is_pending_count(events, cursor, count) && at < count;
    assert(is_pending_count(events, cursor, count) && 0 <= at < count && !is_well_formed(
        events[at],
    ));
}

/// Events that come before any that the cursor names are pending.
proof fn pending_count_reaches(
    events: Seq<ReceiptResultData>,
    cursor: Option<Seq<char>>,
    upto: int,
)
    requires
        0 <= upto < events.len(),
        forall|j: int| 0 <= j <= upto ==> !is_cursor(#[trigger] events[j], cursor),
    ensures
        exists|count: int| #[trigger] is_pending_count(events, cursor, count) && upto < count,
    decreases events.len() - upto,
{
    if upto + 1 == events.len() {
        assert(is_pending_count(events, cursor, events.len() as int));
    } else if is_cursor(events[upto + 1], cursor) {
        assert(is_pending_count(events, cursor, upto + 1));
    } else {
        pending_count_reaches(events, cursor, upto + 1);
    }
}

/// A run of events none of which was minted leaves the cursor where it was,
/// so each of them is pending again when the page is polled again.
pub proof fn unminted_events_stay_pending(
    events: Seq<ReceiptResultData>,
    before: Option<Seq<char>>,
    page_cursor: Seq<char>,
    minted: Seq<bool>,
    count: int,
)
    requires
        forall|i: int| 0 <= i < minted.len() ==> !#[trigger] minted[i],
        is_pending_count(events, before, count),
    ensures
        cursor_after_all(before, page_cursor, minted) == before,
        is_pending_count(events, cursor_after_all(before, page_cursor, minted), count),
    decreases minted.len(),
{
    if minted.len() > 0 {
        let earlier = minted.drop_last();
        assert forall|i: int| 0 <= i < earlier.len() implies !#[trigger] earlier[i] by {
            assert(earlier[i] == minted[i]);
        }
        unminted_events_stay_pending(events, before, page_cursor, earlier, count);
        assert(!minted[minted.len() - 1]);
    }
}

/// A cycle that has handled its events in order and is done has one outcome
/// for each pending event: none was handled twice and none was left out.
pub proof fn finished_cycle_handled_each_event_once(cycle: MintCycle)
    requires
        cycle.handled_in_order(),
        cycle.phase() is Done,
    ensures
        cycle.outcomes@.len() == cycle.pending@.len(),
{
}

/// A cycle that starts on a page has handled its events in order.
pub proof fn started_cycle_is_in_order(
    cycle: MintCycle,
    events: Seq<ReceiptResultData>,
    cursor: Option<Seq<char>>,
    page_cursor: Seq<char>,
)
    requires
        cycle.starts(events, cursor, page_cursor),
    ensures
        cycle.handled_in_order(),
{
}

/// Replaying a page from a cursor within it takes up exactly the events that
/// come before the one that the cursor names: with the cursor at the event in
/// place `at`, the first `at` events are pending, and neither that event nor
/// any after it is taken up again.
pub proof fn replay_takes_events_before_cursor(events: Seq<ReceiptResultData>, at: int)
    requires
        0 <= at < events.len(),
        forall|j: int| 0 <= j < at ==> (#[trigger] events[j]).id.tx_digest@ != events[at].id.tx_digest@,
    ensures
        is_pending_count(events, Some(events[at].id.tx_digest@), at),
        forall|count: int|
            is_pending_count(events, Some(events[at].id.tx_digest@), count) ==> count == at,
{
    let cursor = Some(events[at].id.tx_digest@);
    assert(is_pending_count(events, cursor, at));
    assert forall|count: int| is_pending_count(events, cursor, count) implies count == at by {
        pending_count_is_unique(events, cursor, count, at);
    }
}

/// The cursor after a run of events of one page was handled, given for each
/// whether it was minted.
pub open spec fn cursor_after_all(
    before: Option<Seq<char>>,
    page_cursor: Seq<char>,
    minted: Seq<bool>,
) -> Option<Seq<char>>
    decreases minted.len(),
{
    if minted.len() == 0 {
        before
    } else {
        cursor_after(cursor_after_all(before, page_cursor, minted.drop_last()), page_cursor, minted.last())
    }
}

/// A cycle never moves the cursor back: under any ranking of cursors in which
/// the page's cursor is not behind the stored one, the cursor after any run of
/// handled events is not behind the cursor before it. A stored cursor is
/// never removed.
pub proof fn cursor_never_goes_back(
    rank: spec_fn(Option<Seq<char>>) -> int,
    before: Option<Seq<char>>,
    page_cursor: Seq<char>,
    minted: Seq<bool>,
)
    requires
        rank(before) <= rank(Some(page_cursor)),
    ensures
        rank(before) <= rank(cursor_after_all(before, page_cursor, minted)),
        before is Some ==> cursor_after_all(before, page_cursor, minted) is Some,
        cursor_after_all(before, page_cursor, minted) == before || cursor_after_all(
            before,
            page_cursor,
            minted,
        ) == Some(page_cursor),
    decreases minted.len(),
{
    if minted.len() > 0 {
        cursor_never_goes_back(rank, before, page_cursor, minted.drop_last());
    }
}

} // verus!
