//! Requests and replies of the signing service and of the transaction builder.

use vstd::prelude::*;

verus! {

/// The context bytes handed to the sanitizer with every response.
#[derive(Debug, Clone, PartialEq)]
pub struct Context {
    pub bucket_start_time_index: usize,
    pub closing_price_index: usize,
}

/// What the transaction builder answers: the digest to sign and the unsigned
/// transaction, both in base64.
#[derive(Default, Debug, Clone, PartialEq)]
pub struct TxDigestResponse {
    pub digest: String,
    pub tx_bytes: String,
}

/// What a withdrawal returns: the identifier of the submitted transaction.
#[derive(Default, Debug, Clone, PartialEq)]
pub struct WithdrawResponse {
    pub tx_digest: String,
}

/// A public key in hexadecimal.
#[derive(Default, Debug, Clone, PartialEq)]
pub struct PublicKeyReply {
    pub public_key_hex: String,
}

/// A signature with the public key that verifies it.
#[derive(Default, Debug, Clone, PartialEq)]
pub struct SignatureReply {
    pub signature: String,
    pub public_key: String,
}

/// A request for the public key of a threshold key. Without a `canister_id`
/// the key is derived for the caller.
#[derive(Debug, Clone, PartialEq)]
pub struct ECDSAPublicKey {
    pub canister_id: Option<Vec<u8>>,
    pub derivation_path: Vec<Vec<u8>>,
    pub key_id: EcdsaKeyId,
}

/// The signing service's answer to `ECDSAPublicKey`.
#[derive(Default, Debug, Clone, PartialEq)]
pub struct ECDSAPublicKeyReply {
    pub public_key: Vec<u8>,
    pub chain_code: Vec<u8>,
}

/// A request for a threshold signature over a 32-byte message hash.
#[derive(Debug, Clone, PartialEq)]
pub struct SignWithECDSA {
    pub message_hash: Vec<u8>,
    pub derivation_path: Vec<Vec<u8>>,
    pub key_id: EcdsaKeyId,
}

/// The signing service's answer to `SignWithECDSA`.
#[derive(Default, Debug, Clone, PartialEq)]
pub struct SignWithECDSAReply {
    pub signature: Vec<u8>,
}

/// The curve of a threshold key.
#[derive(Debug, Clone, Copy, PartialEq, Eq, Structural)]
pub enum EcdsaCurve {
    Secp256k1,
}

/// The name of a threshold key on a curve.
#[derive(Debug, Clone, PartialEq)]
pub struct EcdsaKeyId {
    pub curve: EcdsaCurve,
    pub name: String,
}

/// The threshold keys that the signing service offers.
#[derive(Debug, Clone, Copy, PartialEq, Eq, Structural)]
pub enum EcdsaKeyIds {
    TestKeyLocalDevelopment,
    TestKey1,
    ProductionKey1,
}

impl EcdsaKeyIds {
    /// The name under which the signing service knows this key.
    pub open spec fn key_name(self) -> Seq<char> {
        match self {
            EcdsaKeyIds::TestKeyLocalDevelopment => "dfx_test_key"@,
            EcdsaKeyIds::TestKey1 => "test_key_1"@,
            EcdsaKeyIds::ProductionKey1 => "key_1"@,
        }
    }

    /// The identifier of this key: its name, on the curve secp256k1.
    pub fn to_key_id(&self) -> (id: EcdsaKeyId)
        ensures
            id.curve == EcdsaCurve::Secp256k1,
            id.name@ == self.key_name(),
    {
        let name = match self {
            EcdsaKeyIds::TestKeyLocalDevelopment => "dfx_test_key",
            EcdsaKeyIds::TestKey1 => "test_key_1",
            EcdsaKeyIds::ProductionKey1 => "key_1",
        };
        EcdsaKeyId { curve: EcdsaCurve::Secp256k1, name: name.to_owned() }
    }
}

} // verus!
