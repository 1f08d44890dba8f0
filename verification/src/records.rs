//! The records of the two transaction ledgers. A record is written once and
//! never changed.

use vstd::prelude::*;
use crate::natural::{decimal_text, Natural};

verus! {

/// The text of a mint record.
pub open spec fn mint_record_text(
    block_index: Seq<char>,
    date: Seq<char>,
    amount: Seq<char>,
    from: Seq<char>,
    to: Seq<char>,
) -> Seq<char> {
    "{\"block_index\": \""@ + block_index + "\",\"date\":\""@ + date + "\", \"amount\": \""@
        + amount + "\",\"from\": \""@ + from + "\", \"to\": \""@ + to + "\" }"@
}

/// The text of a withdrawal record.
pub open spec fn withdraw_record_text(
    block_index: Seq<char>,
    date: Seq<char>,
    amount: Seq<char>,
    from: Seq<char>,
    tx: Seq<char>,
) -> Seq<char> {
    "{\"block_index\": \""@ + block_index + "\",\"date\":\""@ + date + "\", \"amount\": \""@
        + amount + "\",\"from\": \""@ + from + "\", \"tx\": \""@ + tx + "\" }"@
}

/// A completed mint: a transfer on the ledger that a deposit event caused.
#[derive(Debug, Clone, PartialEq)]
pub struct MintRecord {
    /// The ledger block that holds the transfer.
    pub ledger_block_index: Natural,
    /// When the transfer was confirmed, in nanoseconds since the epoch.
    pub timestamp: u64,
    /// The amount as the event stated it.
    pub amount: String,
    /// The sender on the source chain.
    pub source_address: String,
    /// The recipient on the ledger, as the event named it.
    pub destination_principal: String,
}

/// A completed withdrawal: a transaction submitted to the destination chain
/// for funds that the ledger took into custody.
#[derive(Debug, Clone, PartialEq)]
pub struct WithdrawRecord {
    /// The ledger block that took the funds into custody.
    pub ledger_block_index: Natural,
    /// When the transaction was submitted, in nanoseconds since the epoch.
    pub timestamp: u64,
    /// The amount as the caller stated it.
    pub amount: String,
    /// The caller, as text.
    pub caller_principal: String,
    /// Where the submitted transaction can be looked up.
    pub destination_tx_reference: String,
}

/// Writes the five fields of a record between the given labels.
fn record_text(
    block_index: &str,
    date: &str,
    amount: &str,
    from: &str,
    last_label: &str,
    last: &str,
) -> (text: String)
    ensures
        text@ == "{\"block_index\": \""@ + block_index@ + "\",\"date\":\""@ + date@
            + "\", \"amount\": \""@ + amount@ + "\",\"from\": \""@ + from@ + last_label@ + last@
            + "\" }"@,
{
    let mut text = String::new();
    text.append("{\"block_index\": \"");
    text.append(block_index);
    text.append("\",\"date\":\"");
    text.append(date);
    text.append("\", \"amount\": \"");
    text.append(amount);
    text.append("\",\"from\": \"");
    text.append(from);
    text.append(last_label);
    text.append(last);
    text.append("\" }");
    assert(text@ =~= "{\"block_index\": \""@ + block_index@ + "\",\"date\":\""@ + date@
        + "\", \"amount\": \""@ + amount@ + "\",\"from\": \""@ + from@ + last_label@ + last@
        + "\" }"@);
    text
}

impl MintRecord {
    /// The key under which the record is stored: its block index in decimal.
    pub open spec fn key(self) -> Seq<char> {
        self.ledger_block_index.text()
    }

    /// The text that is stored for the record.
    pub open spec fn text(self) -> Seq<char> {
        mint_record_text(
            self.ledger_block_index.text(),
            decimal_text(self.timestamp as nat),
            self.amount@,
            self.source_address@,
            self.destination_principal@,
        )
    }

    /// The key under which the record is stored.
    pub fn to_key(&self) -> (key: String)
        ensures
            key@ == self.key(),
    {
        self.ledger_block_index.to_text()
    }

    /// The text that is stored for the record.
    pub fn to_text(&self) -> (text: String)
        ensures
            text@ == self.text(),
    {
        let block_index = self.ledger_block_index.to_text();
        let date = Natural::from_u64(self.timestamp).to_text();
        record_text(
            block_index.as_str(),
            date.as_str(),
            self.amount.as_str(),
            self.source_address.as_str(),
            "\", \"to\": \"",
            self.destination_principal.as_str(),
        )
    }
}

impl WithdrawRecord {
    /// The key under which the record is stored: its block index in decimal.
    pub open spec fn key(self) -> Seq<char> {
        self.ledger_block_index.text()
    }

    /// The text that is stored for the record.
    pub open spec fn text(self) -> Seq<char> {
        withdraw_record_text(
            self.ledger_block_index.text(),
            decimal_text(self.timestamp as nat),
            self.amount@,
            self.caller_principal@,
            self.destination_tx_reference@,
        )
    }

    /// The key under which the record is stored.
    pub fn to_key(&self) -> (key: String)
        ensures
            key@ == self.key(),
    {
        self.ledger_block_index.to_text()
    }

    /// The text that is stored for the record.
    pub fn to_text(&self) -> (text: String)
        ensures
            text@ == self.text(),
    {
        let block_index = self.ledger_block_index.to_text();
        let date = Natural::from_u64(self.timestamp).to_text();
        record_text(
            block_index.as_str(),
            date.as_str(),
            self.amount.as_str(),
            self.caller_principal.as_str(),
            "\", \"tx\": \"",
            self.destination_tx_reference.as_str(),
        )
    }
}

} // verus!
