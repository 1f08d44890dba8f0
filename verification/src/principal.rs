//! Principals: the identities that own accounts on the ledger.

use vstd::prelude::*;

verus! {

/// The most bytes a principal has.
pub const MAX_PRINCIPAL_LEN: usize = 29;

/// The bytes of the principal that `text` is the textual form of, if it is the
/// textual form of one.
pub uninterp spec fn principal_of_text(text: Seq<char>) -> Option<Seq<u8>>;

/// Reads a principal with `candid::Principal::from_text` and hands out its
/// bytes with `as_slice`. Trusted: the parser succeeds exactly where
/// `principal_of_text` says and gives those bytes, which are 29 at most.
#[verifier::external_body]
fn principal_from_text(text: &str) -> (bytes: Option<Vec<u8>>)
    ensures
        bytes is Some <==> principal_of_text(text@) is Some,
        bytes matches Some(b) ==> principal_of_text(text@) == Some(b@),
        bytes matches Some(b) ==> b@.len() <= MAX_PRINCIPAL_LEN,
{
    match candid::Principal::from_text(text) {
        Ok(principal) => Some(principal.as_slice().to_vec()),
        Err(_) => None,
    }
}

/// The bytes of the principal written as `text`, or nothing if `text` is not
/// the textual form of a principal.
pub fn parse_principal(text: &str) -> (bytes: Option<Vec<u8>>)
    ensures
        bytes is Some <==> principal_of_text(text@) is Some,
        bytes matches Some(b) ==> principal_of_text(text@) == Some(b@),
        bytes matches Some(b) ==> b@.len() <= MAX_PRINCIPAL_LEN,
{
    principal_from_text(text)
}

} // verus!
