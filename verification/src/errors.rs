//! The ways in which an operation of the relay fails.

use vstd::prelude::*;

verus! {

/// Why an operation failed. No failure is retried: each one ends the operation
/// and is reported to whoever started it.
#[derive(Debug, PartialEq)]
pub enum BridgeError {
    /// A configuration key that the operation needs is not set. Carries the
    /// key.
    ConfigMissing(String),
    /// An outbound call did not come back. Carries the transport's message.
    TransportError(String),
    /// An answer of an outside service could not be read. Carries what was
    /// wrong with it.
    MalformedResponse(String),
    /// The ledger rejected a transfer. Carries the ledger's message.
    LedgerError(String),
    /// The bridge's own balance does not cover a mint.
    InsufficientBalance,
    /// The signing service failed. Carries its message.
    SigningError(String),
    /// The transaction builder could not be reached. Carries the transport's
    /// message.
    BuilderUnavailable(String),
    /// The destination chain did not accept the signed transaction. Carries
    /// its message.
    ExecutionRejected(String),
    /// An answer arrived that the operation was not waiting for.
    OutOfTurn,
}

/// `first` followed by `second`.
pub fn join(first: &str, second: &str) -> (joined: String)
    ensures
        joined@ == first@ + second@,
{
    let mut joined = String::new();
    joined.append(first);
    joined.append(second);
    assert(Seq::<char>::empty() + first@ + second@ =~= first@ + second@);
    joined
}

impl BridgeError {
    /// The text that describes the failure to a caller.
    pub open spec fn describe(self) -> Seq<char> {
        match self {
            BridgeError::ConfigMissing(key) => "missing configuration: "@ + key@,
            BridgeError::TransportError(detail) => "transport error: "@ + detail@,
            BridgeError::MalformedResponse(detail) => "malformed response: "@ + detail@,
            BridgeError::LedgerError(detail) => "ledger transfer error "@ + detail@,
            BridgeError::InsufficientBalance => "insufficient balance"@,
            BridgeError::SigningError(detail) => "signing error: "@ + detail@,
            BridgeError::BuilderUnavailable(detail) => "transaction builder unavailable: "@
                + detail@,
            BridgeError::ExecutionRejected(detail) => "execute_tx_block_sui_rpc error "@ + detail@,
            BridgeError::OutOfTurn => "unexpected answer"@,
        }
    }

    /// The text that describes the failure to a caller.
    pub fn message(&self) -> (text: String)
        ensures
            text@ == self.describe(),
    {
        match self {
            BridgeError::ConfigMissing(key) => join("missing configuration: ", key.as_str()),
            BridgeError::TransportError(detail) => join("transport error: ", detail.as_str()),
            BridgeError::MalformedResponse(detail) => join(
                "malformed response: ",
                detail.as_str(),
            ),
            BridgeError::LedgerError(detail) => join("ledger transfer error ", detail.as_str()),
            BridgeError::InsufficientBalance => "insufficient balance".to_owned(),
            BridgeError::SigningError(detail) => join("signing error: ", detail.as_str()),
            BridgeError::BuilderUnavailable(detail) => join(
                "transaction builder unavailable: ",
                detail.as_str(),
            ),
            BridgeError::ExecutionRejected(detail) => join(
                "execute_tx_block_sui_rpc error ",
                detail.as_str(),
            ),
            BridgeError::OutOfTurn => "unexpected answer".to_owned(),
        }
    }
}

} // verus!
