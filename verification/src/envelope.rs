//! The signed envelope that goes out with a transaction: a flag for the
//! signature scheme, the signature, and the public key, in base64.

use vstd::prelude::*;
use crate::codec::{base64_bytes, base64_decode, base64_text, encodable_len, try_base64_encode};

verus! {

/// The flag of the scheme that the bridge signs with, ECDSA over secp256k1.
pub const SIGNATURE_SCHEME_FLAG: u8 = 1;

/// The bytes of an envelope.
pub open spec fn envelope_bytes(flag: u8, signature: Seq<u8>, public_key: Seq<u8>) -> Seq<u8> {
    seq![flag] + signature + public_key
}

/// The parts of an envelope.
pub struct EnvelopeParts {
    pub flag: u8,
    pub signature: Seq<u8>,
    pub public_key: Seq<u8>,
}

/// The parts of the envelope `bytes` whose signature has `signature_len`
/// bytes, if `bytes` is long enough to be one.
pub open spec fn envelope_parts(bytes: Seq<u8>, signature_len: nat) -> Option<EnvelopeParts> {
    if bytes.len() >= 1 + signature_len {
        Some(
            EnvelopeParts {
                flag: bytes[0],
                signature: bytes.subrange(1, 1 + signature_len as int),
                public_key: bytes.subrange(1 + signature_len as int, bytes.len() as int),
            },
        )
    } else {
        None
    }
}

/// An envelope taken apart.
#[derive(Debug, PartialEq)]
pub struct Envelope {
    pub flag: u8,
    pub signature: Vec<u8>,
    pub public_key: Vec<u8>,
}

impl View for Envelope {
    type V = EnvelopeParts;

    open spec fn view(&self) -> EnvelopeParts {
        EnvelopeParts {
            flag: self.flag,
            signature: self.signature@,
            public_key: self.public_key@,
        }
    }
}

/// Appends `source` to `target`.
pub fn append_bytes(target: &mut Vec<u8>, source: &Vec<u8>)
    ensures
        final(target)@ == old(target)@ + source@,
{
    let ghost before = target@;
    let mut i: usize = 0;
    while i < source.len()
        invariant
            i <= source.len(),
            target@ == before + source@.subrange(0, i as int),
        decreases source.len() - i,
    {
        target.push(source[i]);
        i += 1;
        assert(target@ =~= before + source@.subrange(0, i as int));
    }
    assert(source@.subrange(0, source@.len() as int) =~= source@);
}

/// The bytes of `source` from `from` up to `to`.
pub fn copy_range(source: &Vec<u8>, from: usize, to: usize) -> (copy: Vec<u8>)
    requires
        from <= to <= source@.len(),
    ensures
        copy@ == source@.subrange(from as int, to as int),
{
    let mut copy: Vec<u8> = Vec::new();
    let mut i: usize = from;
    while i < to
        invariant
            from <= i <= to <= source@.len(),
            copy@ == source@.subrange(from as int, i as int),
        decreases to - i,
    {
        copy.push(source[i]);
        i += 1;
        assert(copy@ =~= source@.subrange(from as int, i as int));
    }
    copy
}

/// The bytes of the envelope for `signature` under `public_key`.
pub fn assemble_envelope(signature: &Vec<u8>, public_key: &Vec<u8>) -> (bytes: Vec<u8>)
    ensures
        bytes@ == envelope_bytes(SIGNATURE_SCHEME_FLAG, signature@, public_key@),
{
    let mut bytes: Vec<u8> = Vec::new();
    bytes.push(SIGNATURE_SCHEME_FLAG);
    append_bytes(&mut bytes, signature);
    append_bytes(&mut bytes, public_key);
    assert(bytes@ =~= envelope_bytes(SIGNATURE_SCHEME_FLAG, signature@, public_key@));
    bytes
}

/// The envelope for `signature` under `public_key`, in base64; nothing if the
/// two are too long to encode.
pub fn encode_signature(signature: &Vec<u8>, public_key: &Vec<u8>) -> (text: Option<String>)
    ensures
        text is Some <==> encodable_len(1 + signature@.len() + public_key@.len()),
        text matches Some(t) ==> t@ == base64_text(
            envelope_bytes(SIGNATURE_SCHEME_FLAG, signature@, public_key@),
        ),
{
    let bytes = assemble_envelope(signature, public_key);
    try_base64_encode(&bytes)
}

/// Takes apart the bytes of an envelope whose signature has `signature_len`
/// bytes; nothing if `bytes` is too short to be one.
pub fn split_envelope(bytes: &Vec<u8>, signature_len: usize) -> (envelope: Option<Envelope>)
    ensures
        envelope is Some <==> envelope_parts(bytes@, signature_len as nat) is Some,
        envelope matches Some(e) ==> Some(e@) == envelope_parts(bytes@, signature_len as nat),
{
    if bytes.len() == 0 || bytes.len() - 1 < signature_len {
        return None;
    }
    Some(
        Envelope {
            flag: bytes[0],
            signature: copy_range(bytes, 1, 1 + signature_len),
            public_key: copy_range(bytes, 1 + signature_len, bytes.len()),
        },
    )
}

/// The parts of an envelope that may be missing.
pub open spec fn parts_of(envelope: Option<Envelope>) -> Option<EnvelopeParts> {
    match envelope {
        Some(e) => Some(e@),
        None => None,
    }
}

/// Takes apart an envelope in base64 whose signature has `signature_len`
/// bytes; nothing if `text` is not base64 or stands for too few bytes. An
/// envelope that `encode_signature` produced comes apart into the signature
/// and the public key it was made of.
pub fn decode_signature(text: &str, signature_len: usize) -> (envelope: Option<Envelope>)
    ensures
        parts_of(envelope) == (match base64_bytes(text@) {
            Some(bytes) => envelope_parts(bytes, signature_len as nat),
            None => None,
        }),
        forall|flag: u8, signature: Seq<u8>, public_key: Seq<u8>|
            text@ == base64_text(#[trigger] envelope_bytes(flag, signature, public_key))
                && signature.len() == signature_len ==> parts_of(envelope) == Some(
                EnvelopeParts { flag, signature, public_key },
            ),
{
    match base64_decode(text) {
        Some(bytes) => {
            proof {
                assert forall|flag: u8, signature: Seq<u8>, public_key: Seq<u8>|
                    text@ == base64_text(#[trigger] envelope_bytes(flag, signature, public_key))
                        && signature.len() == signature_len implies envelope_parts(
                    bytes@,
                    signature_len as nat,
                ) == Some(EnvelopeParts { flag, signature, public_key }) by {
                    envelope_round_trip(flag, signature, public_key);
                }
            }
            split_envelope(&bytes, signature_len)
        },
        None => None,
    }
}

/// An envelope comes apart into the flag, the signature and the public key
/// that it was put together from.
pub proof fn envelope_round_trip(flag: u8, signature: Seq<u8>, public_key: Seq<u8>)
    ensures
        envelope_parts(envelope_bytes(flag, signature, public_key), signature.len()) == Some(
            EnvelopeParts { flag, signature, public_key },
        ),
{
    let bytes = envelope_bytes(flag, signature, public_key);
    assert(bytes.subrange(1, 1 + signature.len() as int) =~= signature);
    assert(bytes.subrange(1 + signature.len() as int, bytes.len() as int) =~= public_key);
}

} // verus!
