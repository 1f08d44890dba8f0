//! Transport encoding and digests, computed by the crates that define them.

use vstd::prelude::*;
use base64::Engine;
use fastcrypto::hash::HashFunction;
use sha2::Digest;

verus! {

/// The standard, padded base64 text of `bytes`.
pub uninterp spec fn base64_text(bytes: Seq<u8>) -> Seq<char>;

/// The bytes that standard, padded base64 `text` stands for, if it is valid.
pub uninterp spec fn base64_bytes(text: Seq<char>) -> Option<Seq<u8>>;

/// The SHA-256 digest of `input`.
pub uninterp spec fn sha256_digest(input: Seq<u8>) -> Seq<u8>;

/// The 256-bit BLAKE2b digest of `input`.
pub uninterp spec fn blake2b256_digest(input: Seq<u8>) -> Seq<u8>;

/// Whether `len` bytes can be encoded: the text, four characters for every
/// three bytes, must not be longer than the machine can address.
pub open spec fn encodable_len(len: nat) -> bool {
    len / 3 * 4 + 4 <= usize::MAX
}

/// Encodes with `base64::engine::general_purpose::STANDARD.encode`, which
/// fails only when the length of the text overflows. Trusted: the result is
/// the base64 text of `bytes`.
#[verifier::external_body]
fn standard_encode(bytes: &[u8]) -> (text: String)
    requires
        encodable_len(bytes@.len()),
    ensures
        text@ == base64_text(bytes@),
{
    base64::engine::general_purpose::STANDARD.encode(bytes)
}

/// Decodes with `base64::engine::general_purpose::STANDARD.decode`. Trusted:
/// the result is what the text stands for, and the text that the encoder
/// gives for some bytes stands for those bytes.
#[verifier::external_body]
fn standard_decode(text: &str) -> (bytes: Option<Vec<u8>>)
    ensures
        bytes is Some <==> base64_bytes(text@) is Some,
        bytes matches Some(b) ==> base64_bytes(text@) == Some(b@),
        forall|source: Seq<u8>| text@ == #[trigger] base64_text(source) ==> bytes is Some,
        bytes matches Some(b) ==> forall|source: Seq<u8>|
            text@ == #[trigger] base64_text(source) ==> b@ == source,
{
    match base64::engine::general_purpose::STANDARD.decode(text) {
        Ok(bytes) => Some(bytes),
        Err(_) => None,
    }
}

/// Hashes with `sha2::Sha256`. Trusted: the result is the SHA-256 digest of
/// `input`.
#[verifier::external_body]
fn sha2_digest(input: [u8; 32]) -> (digest: [u8; 32])
    ensures
        digest@ == sha256_digest(input@),
{
    let mut hasher = sha2::Sha256::new();
    hasher.update(input);
    hasher.finalize().into()
}

/// Hashes with `fastcrypto::hash::Blake2b256`. Trusted: the result is the
/// 256-bit BLAKE2b digest of `input`.
#[verifier::external_body]
fn blake2b256(input: &[u8]) -> (digest: [u8; 32])
    ensures
        digest@ == blake2b256_digest(input@),
{
    fastcrypto::hash::Blake2b256::digest(input).digest
}

/// The base64 text of `bytes`.
pub fn base64_encode(bytes: &Vec<u8>) -> (text: String)
    requires
        encodable_len(bytes@.len()),
    ensures
        text@ == base64_text(bytes@),
{
    standard_encode(bytes.as_slice())
}

/// The base64 text of `bytes`, or nothing where the text would be longer than
/// the machine can address.
pub fn try_base64_encode(bytes: &Vec<u8>) -> (text: Option<String>)
    ensures
        text is Some <==> encodable_len(bytes@.len()),
        text matches Some(t) ==> t@ == base64_text(bytes@),
{
    if bytes.len() / 3 <= (usize::MAX - 4) / 4 {
        Some(standard_encode(bytes.as_slice()))
    } else {
        None
    }
}

/// The bytes that base64 `text` stands for, or nothing if it is not valid
/// base64. Text that `base64_encode` produced decodes to the bytes it was
/// produced from.
pub fn base64_decode(text: &str) -> (bytes: Option<Vec<u8>>)
    ensures
        bytes is Some <==> base64_bytes(text@) is Some,
        bytes matches Some(b) ==> base64_bytes(text@) == Some(b@),
        forall|source: Seq<u8>| text@ == #[trigger] base64_text(source) ==> bytes is Some,
        bytes matches Some(b) ==> forall|source: Seq<u8>|
            text@ == #[trigger] base64_text(source) ==> b@ == source,
{
    standard_decode(text)
}

/// The SHA-256 digest of a 32-byte input.
pub fn sha256(input: [u8; 32]) -> (digest: [u8; 32])
    ensures
        digest@ == sha256_digest(input@),
{
    sha2_digest(input)
}

/// The 256-bit BLAKE2b digest of `input`.
pub fn blake2b256_of(input: &Vec<u8>) -> (digest: [u8; 32])
    ensures
        digest@ == blake2b256_digest(input@),
{
    blake2b256(input.as_slice())
}

/// The 32 bytes of `bytes` as a digest, or nothing if there are not 32.
pub fn to_digest(bytes: &Vec<u8>) -> (digest: Option<[u8; 32]>)
    ensures
        digest is Some <==> bytes@.len() == 32,
        digest matches Some(d) ==> d@ == bytes@,
{
    if bytes.len() != 32 {
        return None;
    }
    let mut out: [u8; 32] = [0u8; 32];
    let mut i: usize = 0;
    while i < 32
        invariant
            i <= 32,
            bytes@.len() == 32,
            forall|j: int| 0 <= j < i ==> out@[j] == bytes@[j],
        decreases 32 - i,
    {
        out.set(i, bytes[i]);
        i += 1;
    }
    assert(out@ =~= bytes@);
    Some(out)
}

/// The bytes of a digest.
pub fn digest_bytes(digest: &[u8; 32]) -> (bytes: Vec<u8>)
    ensures
        bytes@ == digest@,
{
    let mut out: Vec<u8> = Vec::new();
    let mut i: usize = 0;
    while i < 32
        invariant
            i <= 32,
            out@.len() == i,
            forall|j: int| 0 <= j < i ==> out@[j] == digest@[j],
        decreases 32 - i,
    {
        out.push(digest[i]);
        i += 1;
    }
    assert(out@ =~= digest@);
    out
}

} // verus!
