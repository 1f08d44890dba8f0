//! The withdrawal pipeline: from a caller's request to a transaction on the
//! destination chain and its record.
//!
//! A withdrawal passes the stages `Requested`, `FundsLocked`, `TxBuilt`,
//! `Digested`, `Signed`, `Submitted` and `Recorded`, and may fail in any of
//! them. The module decides; whoever drives it performs each action and hands
//! back the answer. Nothing is retried, and funds that were locked stay
//! locked when a later stage fails.

use vstd::prelude::*;
use crate::codec::{
    base64_bytes, base64_decode, base64_text, digest_bytes, encodable_len, sha256, sha256_digest,
    to_digest, try_base64_encode,
};
use crate::common::{
    ECDSAPublicKey, ECDSAPublicKeyReply, EcdsaCurve, EcdsaKeyId, EcdsaKeyIds, SignWithECDSA,
    SignWithECDSAReply, TxDigestResponse, WithdrawResponse,
};
use crate::constants::{
    API_URL_KEY, IS_LOCAL_KEY, LEDGER_CANISTER_ID_KEY, LOCAL_MGMT_PRINCIPAL_ID_KEY,
    MINTER_TOKEN_KEY, TX_DIGEST_URL_KEY,
};
use crate::envelope::{encode_signature, envelope_bytes, SIGNATURE_SCHEME_FLAG};
use crate::errors::BridgeError;
use crate::http::{CanisterHttpRequestArgument, HttpFailure};
use crate::models::{ExecuteTxBlockResponse, PublicKeyResponse, TransferWithdrawArgs};
use crate::natural::{decimal_text, parsed_natural, Natural};
use crate::principal::{parse_principal, principal_of_text};
use crate::records::{withdraw_record_text, WithdrawRecord};
use crate::requests::{
    execute_tx_block_body, execute_tx_block_request, get_withdraw_request, is_sanitized_post,
    json_content_type, required, rpc_url, text_is, withdraw_request_body,
};
use crate::store::{insert_withdraw_tx, BridgeStores};

verus! {

/// How far a withdrawal has come.
#[derive(Clone, Copy, Debug, PartialEq, Eq, Structural)]
pub enum WithdrawStage {
    /// The caller has asked; nothing has been done.
    Requested,
    /// The amount is in the bridge's custody.
    FundsLocked,
    /// The builder has answered with an unsigned transaction.
    TxBuilt,
    /// The digest to sign is known.
    Digested,
    /// The signed envelope is assembled.
    Signed,
    /// The destination chain has accepted the transaction.
    Submitted,
    /// The record is written.
    Recorded,
}

/// What the pipeline does next.
#[derive(Debug, PartialEq)]
pub enum WithdrawAction {
    /// Pull `amount` from the account of `from` into the account of `to`, on
    /// the caller's allowance, at the ledger `ledger`.
    LockFunds { ledger: Vec<u8>, from: Vec<u8>, to: Vec<u8>, amount: Natural },
    /// Ask the signing service `signer` for the bridge's public key.
    FetchPublicKey { signer: Vec<u8>, request: ECDSAPublicKey },
    /// Ask the transaction builder for an unsigned transaction.
    BuildTransaction(CanisterHttpRequestArgument),
    /// Ask the signing service `signer` for a signature.
    Sign { signer: Vec<u8>, request: SignWithECDSA },
    /// Submit the signed transaction to the destination chain.
    Submit(CanisterHttpRequestArgument),
    /// Nothing: the withdrawal is recorded. Carries what the caller gets.
    Done(WithdrawResponse),
}

/// One withdrawal on its way through the pipeline.
#[derive(Debug, PartialEq)]
pub struct Withdrawal {
    /// The last stage reached.
    pub stage: WithdrawStage,
    /// Whether the withdrawal failed after reaching `stage`.
    pub failed: bool,
    /// The caller, as text.
    pub caller: String,
    /// The recipient on the destination chain.
    pub recipient: String,
    /// The amount as the caller stated it.
    pub amount: String,
    /// The ledger block that locked the funds, once they are locked.
    pub block_index: Option<Natural>,
    /// The bridge's public key, once the signing service has given it.
    pub public_key: Option<Vec<u8>>,
    /// The unsigned transaction in base64, once it is built.
    pub tx_bytes: String,
    /// The network of the destination chain that the transaction went to.
    pub network: String,
}

/// Whether `action` says that an answer arrived out of turn.
pub open spec fn is_out_of_turn(action: Result<WithdrawAction, BridgeError>) -> bool {
    action matches Err(e) && e is OutOfTurn
}

/// Whether `key` is the key that the bridge signs with.
pub open spec fn is_signing_key(key: EcdsaKeyId) -> bool {
    key.curve == EcdsaCurve::Secp256k1 && key.name@
        == EcdsaKeyIds::TestKeyLocalDevelopment.key_name()
}

/// The network of the destination chain: the test network for a local
/// deployment, the main network otherwise.
pub open spec fn network_name(is_local: Seq<char>) -> Seq<char> {
    if is_local == "true"@ {
        "testnet"@
    } else {
        "mainnet"@
    }
}

/// Where a submitted transaction can be looked up.
pub open spec fn explorer_url(network: Seq<char>, tx_digest: Seq<char>) -> Seq<char> {
    "https://suiscan.xyz/"@ + network + "/tx/"@ + tx_digest
}

/// The principal of the signing service: for a local deployment the one
/// configured, otherwise the management canister, whose principal is empty.
pub open spec fn signer_of(config: Map<Seq<char>, Seq<char>>) -> Option<Seq<u8>> {
    if !config.contains_key(IS_LOCAL_KEY@) || !config.contains_key(LOCAL_MGMT_PRINCIPAL_ID_KEY@) {
        None
    } else if config[IS_LOCAL_KEY@] == "true"@ {
        principal_of_text(config[LOCAL_MGMT_PRINCIPAL_ID_KEY@])
    } else {
        Some(Seq::<u8>::empty())
    }
}

/// The principal configured under `key`, if one is.
pub open spec fn configured_principal(config: Map<Seq<char>, Seq<char>>, key: Seq<char>) -> Option<
    Seq<u8>,
> {
    if config.contains_key(key) {
        principal_of_text(config[key])
    } else {
        None
    }
}

/// The principal configured under `key`. A value that is not the text of a
/// principal counts as missing.
pub fn required_principal(stores: &BridgeStores, key: &str) -> (principal: Result<
    Vec<u8>,
    BridgeError,
>)
    ensures
        principal is Ok <==> configured_principal(stores.config@, key@) is Some,
        principal matches Ok(p) ==> configured_principal(stores.config@, key@) == Some(p@),
        principal matches Err(e) ==> e matches BridgeError::ConfigMissing(k) && k@ == key@,
{
    let text = required(stores, key)?;
    match parse_principal(text.as_str()) {
        Some(principal) => Ok(principal),
        None => Err(BridgeError::ConfigMissing(key.to_owned())),
    }
}

/// The principal of the signing service.
pub fn mgmt_canister_id(stores: &BridgeStores) -> (signer: Result<Vec<u8>, BridgeError>)
    ensures
        signer is Ok <==> signer_of(stores.config@) is Some,
        signer matches Ok(s) ==> signer_of(stores.config@) == Some(s@),
        signer matches Err(e) ==> e is ConfigMissing,
{
    let is_local = required(stores, IS_LOCAL_KEY)?;
    let local = required(stores, LOCAL_MGMT_PRINCIPAL_ID_KEY)?;
    if text_is(&is_local, "true") {
        match parse_principal(local.as_str()) {
            Some(principal) => Ok(principal),
            None => Err(BridgeError::ConfigMissing(LOCAL_MGMT_PRINCIPAL_ID_KEY.to_owned())),
        }
    } else {
        Ok(Vec::new())
    }
}

/// The request for the bridge's public key: the signing key, derived for the
/// bridge itself along the empty path.
pub fn public_key_request() -> (request: ECDSAPublicKey)
    ensures
        request.canister_id is None,
        request.derivation_path@.len() == 0,
        is_signing_key(request.key_id),
{
    ECDSAPublicKey {
        canister_id: None,
        derivation_path: Vec::new(),
        key_id: EcdsaKeyIds::TestKeyLocalDevelopment.to_key_id(),
    }
}

/// The bridge's public key as the signing service gave it, raw and in base64;
/// nothing if the key is too long to encode.
pub fn get_public_key(reply: &ECDSAPublicKeyReply) -> (key: Option<PublicKeyResponse>)
    ensures
        key is Some <==> encodable_len(reply.public_key@.len()),
        key matches Some(k) ==> k.public_key@ == reply.public_key@ && k.public_key_bs64@
            == base64_text(reply.public_key@),
{
    match try_base64_encode(&reply.public_key) {
        Some(text) => Some(
            PublicKeyResponse { public_key: reply.public_key.clone(), public_key_bs64: text },
        ),
        None => None,
    }
}

/// The request for a signature over `digest`: the service signs the SHA-256
/// hash of the digest, with the signing key, along the empty path.
pub fn sign_with_ecdsa(digest: [u8; 32]) -> (request: SignWithECDSA)
    ensures
        request.message_hash@ == sha256_digest(digest@),
        request.derivation_path@.len() == 0,
        is_signing_key(request.key_id),
{
    let hash = sha256(digest);
    SignWithECDSA {
        message_hash: digest_bytes(&hash),
        derivation_path: Vec::new(),
        key_id: EcdsaKeyIds::TestKeyLocalDevelopment.to_key_id(),
    }
}

/// Where the transaction `tx_digest` can be looked up on `network`.
pub fn explorer_link(network: &str, tx_digest: &str) -> (url: String)
    ensures
        url@ == explorer_url(network@, tx_digest@),
{
    let mut url = String::new();
    url.append("https://suiscan.xyz/");
    url.append(network);
    url.append("/tx/");
    url.append(tx_digest);
    assert(url@ =~= explorer_url(network@, tx_digest@));
    url
}

impl Withdrawal {
    /// Whether the withdrawal waits in `stage`.
    pub open spec fn waits_in(self, stage: WithdrawStage) -> bool {
        !self.failed && self.stage == stage
    }

    /// Whether `after` is this withdrawal, failed where it stood.
    pub open spec fn fails_to(self, after: Withdrawal) -> bool {
        &&& after.failed
        &&& after.stage == self.stage
        &&& after.caller == self.caller
        &&& after.recipient == self.recipient
        &&& after.amount == self.amount
        &&& after.block_index == self.block_index
    }

    /// Whether `after` is the same request at `stage`.
    pub open spec fn moves_to(self, after: Withdrawal, stage: WithdrawStage) -> bool {
        &&& !after.failed
        &&& after.stage == stage
        &&& after.caller == self.caller
        &&& after.recipient == self.recipient
        &&& after.amount == self.amount
    }

    /// Whether what the caller asks can be taken up under `config`: the
    /// custody account and the ledger are configured, and the caller and the
    /// amount can be read.
    pub open spec fn accepts(config: Map<Seq<char>, Seq<char>>, caller: Seq<char>, amount: Seq<char>) -> bool {
        &&& configured_principal(config, MINTER_TOKEN_KEY@) is Some
        &&& configured_principal(config, LEDGER_CANISTER_ID_KEY@) is Some
        &&& principal_of_text(caller) is Some
        &&& parsed_natural(amount) is Some
    }

    /// Takes up a caller's request and asks for the funds to be locked.
    /// Fails, with nothing done, if the custody account or the ledger is not
    /// configured, or if the caller or the amount cannot be read.
    pub fn request(stores: &BridgeStores, caller: &str, args: TransferWithdrawArgs) -> (started:
        Result<(Withdrawal, WithdrawAction), BridgeError>)
        ensures
            started is Ok <==> Self::accepts(stores.config@, caller@, args.amount@),
            started matches Ok((withdrawal, action)) ==> {
                &&& withdrawal.waits_in(WithdrawStage::Requested)
                &&& withdrawal.caller@ == caller@
                &&& withdrawal.recipient == args.recipient
                &&& withdrawal.amount == args.amount
                &&& withdrawal.block_index is None
                &&& withdrawal.public_key is None
                &&& action matches WithdrawAction::LockFunds { ledger, from, to, amount }
                &&& configured_principal(stores.config@, LEDGER_CANISTER_ID_KEY@) == Some(ledger@)
                &&& configured_principal(stores.config@, MINTER_TOKEN_KEY@) == Some(to@)
                &&& principal_of_text(caller@) == Some(from@)
                &&& parsed_natural(args.amount@) == Some(amount.value())
            },
            started matches Err(e) ==> (e is ConfigMissing <==> !(configured_principal(
                stores.config@,
                MINTER_TOKEN_KEY@,
            ) is Some && configured_principal(stores.config@, LEDGER_CANISTER_ID_KEY@) is Some)),
            started matches Err(e) ==> e is ConfigMissing || e is MalformedResponse,
    {
        let to = required_principal(stores, MINTER_TOKEN_KEY)?;
        let ledger = required_principal(stores, LEDGER_CANISTER_ID_KEY)?;
        let from = match parse_principal(caller) {
            Some(from) => from,
            None => {
                return Err(BridgeError::MalformedResponse("caller is not a principal".to_owned()));
            },
        };
        let amount = match Natural::parse(args.amount.as_str()) {
            Some(amount) => amount,
            None => {
                return Err(BridgeError::MalformedResponse("amount is not a number".to_owned()));
            },
        };
        let withdrawal = Withdrawal {
            stage: WithdrawStage::Requested,
            failed: false,
            caller: caller.to_owned(),
            recipient: args.recipient,
            amount: args.amount,
            block_index: None,
            public_key: None,
            tx_bytes: String::new(),
            network: String::new(),
        };
        Ok((withdrawal, WithdrawAction::LockFunds { ledger, from, to, amount }))
    }

    /// Takes the ledger's answer to the lock: the index of the block that
    /// holds the transfer, or the ledger's message. With the funds locked the
    /// pipeline asks for the bridge's public key. It fails if the ledger
    /// refused, or if the signing service is not configured.
    pub fn on_funds_locked(&mut self, stores: &BridgeStores, outcome: Result<Natural, String>) -> (action:
        Result<WithdrawAction, BridgeError>)
        ensures
            !old(self).waits_in(WithdrawStage::Requested) ==> is_out_of_turn(action)
                && *final(self) == *old(self),
            old(self).waits_in(WithdrawStage::Requested) ==> (match outcome {
                Err(detail) => {
                    &&& action matches Err(BridgeError::LedgerError(d))
                    &&& d == detail
                    &&& old(self).fails_to(*final(self))
                },
                Ok(block_index) => {
                    &&& final(self).block_index == Some(block_index)
                    &&& final(self).stage == WithdrawStage::FundsLocked
                    &&& final(self).public_key == old(self).public_key
                    &&& match signer_of(stores.config@) {
                        Some(service) => {
                            &&& old(self).moves_to(*final(self), WithdrawStage::FundsLocked)
                            &&& action matches Ok(WithdrawAction::FetchPublicKey { signer, request })
                            &&& signer@ == service
                            &&& request.canister_id is None
                            &&& request.derivation_path@.len() == 0
                            &&& is_signing_key(request.key_id)
                        },
                        None => {
                            &&& action matches Err(e)
                            &&& e is ConfigMissing
                            &&& final(self).failed
                        },
                    }
                },
            }),
    {
        if self.failed || !matches!(self.stage, WithdrawStage::Requested) {
            return Err(BridgeError::OutOfTurn);
        }
        match outcome {
            Err(detail) => {
                self.failed = true;
                Err(BridgeError::LedgerError(detail))
            },
            Ok(block_index) => {
                self.stage = WithdrawStage::FundsLocked;
                self.block_index = Some(block_index);
                match mgmt_canister_id(stores) {
                    Ok(signer) => Ok(
                        WithdrawAction::FetchPublicKey { signer, request: public_key_request() },
                    ),
                    Err(e) => {
                        self.failed = true;
                        Err(e)
                    },
                }
            },
        }
    }

    /// Takes the signing service's answer to the request for the public key:
    /// the key, or the service's message. With the key the pipeline asks the
    /// builder for an unsigned transaction that pays the amount to the
    /// recipient. It fails if the service failed, if the builder is not
    /// configured, or if the key is too long to encode.
    pub fn on_public_key(
        &mut self,
        stores: &BridgeStores,
        outcome: Result<ECDSAPublicKeyReply, String>,
    ) -> (action: Result<WithdrawAction, BridgeError>)
        ensures
            !(old(self).waits_in(WithdrawStage::FundsLocked) && old(self).public_key is None)
                ==> is_out_of_turn(action) && *final(self) == *old(self),
            old(self).waits_in(WithdrawStage::FundsLocked) && old(self).public_key is None ==> (
            match outcome {
                Err(detail) => {
                    &&& action matches Err(BridgeError::SigningError(d))
                    &&& d == detail
                    &&& old(self).fails_to(*final(self))
                },
                Ok(reply) => {
                    let config = stores.config@;
                    if config.contains_key(TX_DIGEST_URL_KEY@) && config.contains_key(API_URL_KEY@)
                        && encodable_len(reply.public_key@.len()) {
                        &&& old(self).moves_to(*final(self), WithdrawStage::FundsLocked)
                        &&& final(self).block_index == old(self).block_index
                        &&& final(self).public_key matches Some(key)
                        &&& key@ == reply.public_key@
                        &&& action matches Ok(WithdrawAction::BuildTransaction(r))
                        &&& is_sanitized_post(
                            r,
                            config[TX_DIGEST_URL_KEY@],
                            seq![("Host"@, config[API_URL_KEY@]), json_content_type()],
                            withdraw_request_body(
                                reply.public_key@,
                                old(self).recipient@,
                                old(self).amount@,
                            ),
                        )
                    } else {
                        &&& action matches Err(e)
                        &&& (e is ConfigMissing || e is SigningError)
                        &&& old(self).fails_to(*final(self))
                    }
                },
            }),
    {
        if self.failed || !matches!(self.stage, WithdrawStage::FundsLocked)
            || self.public_key.is_some() {
            return Err(BridgeError::OutOfTurn);
        }
        match outcome {
            Err(detail) => {
                self.failed = true;
                Err(BridgeError::SigningError(detail))
            },
            Ok(reply) => {
                match get_withdraw_request(
                    stores,
                    &reply.public_key,
                    self.recipient.as_str(),
                    self.amount.as_str(),
                ) {
                    Ok(request) => {
                        self.public_key = Some(reply.public_key);
                        Ok(WithdrawAction::BuildTransaction(request))
                    },
                    Err(e) => {
                        self.failed = true;
                        Err(e)
                    },
                }
            },
        }
    }

    /// Takes the builder's answer: the unsigned transaction with the digest to
    /// sign, or why there is none. With a digest of 32 bytes the pipeline asks
    /// for a signature over its SHA-256 hash. It fails if the builder could
    /// not be reached or its answer could not be read, if the digest is not
    /// base64 for 32 bytes, or if the signing service is not configured.
    pub fn on_transaction_built(
        &mut self,
        stores: &BridgeStores,
        outcome: Result<TxDigestResponse, HttpFailure>,
    ) -> (action: Result<WithdrawAction, BridgeError>)
        ensures
            !(old(self).waits_in(WithdrawStage::FundsLocked) && old(self).public_key is Some)
                ==> is_out_of_turn(action) && *final(self) == *old(self),
            old(self).waits_in(WithdrawStage::FundsLocked) && old(self).public_key is Some ==> (
            match outcome {
                Err(HttpFailure::Transport(detail)) => {
                    &&& action matches Err(BridgeError::BuilderUnavailable(d))
                    &&& d == detail
                    &&& old(self).fails_to(*final(self))
                },
                Err(HttpFailure::Malformed(detail)) => {
                    &&& action matches Err(BridgeError::MalformedResponse(d))
                    &&& d == detail
                    &&& old(self).fails_to(*final(self))
                },
                Ok(built) => {
                    &&& final(self).tx_bytes == built.tx_bytes
                    &&& final(self).public_key == old(self).public_key
                    &&& final(self).block_index == old(self).block_index
                    &&& match base64_bytes(built.digest@) {
                        Some(digest) if digest.len() == 32 => {
                            match signer_of(stores.config@) {
                                Some(service) => {
                                    &&& old(self).moves_to(*final(self), WithdrawStage::Digested)
                                    &&& action matches Ok(WithdrawAction::Sign { signer, request })
                                    &&& signer@ == service
                                    &&& request.message_hash@ == sha256_digest(digest)
                                    &&& request.derivation_path@.len() == 0
                                    &&& is_signing_key(request.key_id)
                                },
                                None => {
                                    &&& action matches Err(e)
                                    &&& e is ConfigMissing
                                    &&& final(self).failed
                                    &&& final(self).stage == WithdrawStage::Digested
                                },
                            }
                        },
                        _ => {
                            &&& action matches Err(e)
                            &&& e is MalformedResponse
                            &&& final(self).failed
                            &&& final(self).stage == WithdrawStage::TxBuilt
                        },
                    }
                },
            }),
    {
        if self.failed || !matches!(self.stage, WithdrawStage::FundsLocked)
            || self.public_key.is_none() {
            return Err(BridgeError::OutOfTurn);
        }
        match outcome {
            Err(HttpFailure::Transport(detail)) => {
                self.failed = true;
                Err(BridgeError::BuilderUnavailable(detail))
            },
            Err(HttpFailure::Malformed(detail)) => {
                self.failed = true;
                Err(BridgeError::MalformedResponse(detail))
            },
            Ok(built) => {
                self.stage = WithdrawStage::TxBuilt;
                let decoded = base64_decode(built.digest.as_str());
                self.tx_bytes = built.tx_bytes;
                let digest = match decoded {
                    Some(bytes) => to_digest(&bytes),
                    None => None,
                };
                match digest {
                    None => {
                        self.failed = true;
                        Err(
                            BridgeError::MalformedResponse(
                                "digest is not base64 for 32 bytes".to_owned(),
                            ),
                        )
                    },
                    Some(digest) => {
                        self.stage = WithdrawStage::Digested;
                        match mgmt_canister_id(stores) {
                            Ok(signer) => Ok(
                                WithdrawAction::Sign { signer, request: sign_with_ecdsa(digest) },
                            ),
                            Err(e) => {
                                self.failed = true;
                                Err(e)
                            },
                        }
                    },
                }
            },
        }
    }

    /// Takes the signing service's answer: the signature, or the service's
    /// message. With the signature the pipeline assembles the envelope and
    /// submits it with the transaction. It fails if the service failed, if
    /// the envelope is too long to encode, or if the destination chain is not
    /// configured.
    pub fn on_signed(
        &mut self,
        stores: &BridgeStores,
        outcome: Result<SignWithECDSAReply, String>,
    ) -> (action: Result<WithdrawAction, BridgeError>)
        ensures
            !(old(self).waits_in(WithdrawStage::Digested) && old(self).public_key is Some)
                ==> is_out_of_turn(action) && *final(self) == *old(self),
            old(self).waits_in(WithdrawStage::Digested) && old(self).public_key is Some ==> (
            match outcome {
                Err(detail) => {
                    &&& action matches Err(BridgeError::SigningError(d))
                    &&& d == detail
                    &&& old(self).fails_to(*final(self))
                },
                Ok(reply) => {
                    let config = stores.config@;
                    let key = old(self).public_key->0@;
                    if config.contains_key(IS_LOCAL_KEY@) && encodable_len(
                        1 + reply.signature@.len() + key.len(),
                    ) {
                        &&& old(self).moves_to(*final(self), WithdrawStage::Signed)
                        &&& final(self).block_index == old(self).block_index
                        &&& final(self).tx_bytes == old(self).tx_bytes
                        &&& final(self).network@ == network_name(config[IS_LOCAL_KEY@])
                        &&& action matches Ok(WithdrawAction::Submit(r))
                        &&& is_sanitized_post(
                            r,
                            rpc_url(config[IS_LOCAL_KEY@]),
                            seq![json_content_type()],
                            execute_tx_block_body(
                                old(self).tx_bytes@,
                                base64_text(
                                    envelope_bytes(SIGNATURE_SCHEME_FLAG, reply.signature@, key),
                                ),
                            ),
                        )
                    } else {
                        &&& action matches Err(e)
                        &&& (e is ConfigMissing || e is SigningError)
                        &&& (e is ConfigMissing <==> !config.contains_key(IS_LOCAL_KEY@))
                        &&& old(self).fails_to(*final(self))
                    }
                },
            }),
    {
        if self.failed || !matches!(self.stage, WithdrawStage::Digested)
            || self.public_key.is_none() {
            return Err(BridgeError::OutOfTurn);
        }
        match outcome {
            Err(detail) => {
                self.failed = true;
                Err(BridgeError::SigningError(detail))
            },
            Ok(reply) => {
                let is_local = match required(stores, IS_LOCAL_KEY) {
                    Ok(is_local) => is_local,
                    Err(e) => {
                        self.failed = true;
                        return Err(e);
                    },
                };
                let envelope = match &self.public_key {
                    Some(key) => encode_signature(&reply.signature, key),
                    None => None,
                };
                let envelope = match envelope {
                    Some(envelope) => envelope,
                    None => {
                        self.failed = true;
                        return Err(BridgeError::SigningError("envelope too long".to_owned()));
                    },
                };
                match execute_tx_block_request(stores, envelope.as_str(), self.tx_bytes.as_str()) {
                    Ok(request) => {
                        self.stage = WithdrawStage::Signed;
                        self.network = if text_is(&is_local, "true") {
                            "testnet".to_owned()
                        } else {
                            "mainnet".to_owned()
                        };
                        Ok(WithdrawAction::Submit(request))
                    },
                    Err(e) => {
                        self.failed = true;
                        Err(e)
                    },
                }
            },
        }
    }

    /// Takes the destination chain's answer to the submission: the identifier
    /// of the transaction, or why there is none. With the identifier the
    /// pipeline appends the record of the withdrawal, dated `now`, under the
    /// index of the block that locked the funds, and is done. A failed
    /// submission stores nothing. An answer that the pipeline does not wait
    /// for changes nothing.
    pub fn on_submitted(
        &mut self,
        stores: &mut BridgeStores,
        outcome: Result<ExecuteTxBlockResponse, HttpFailure>,
        now: u64,
    ) -> (action: Result<WithdrawAction, BridgeError>)
        ensures
            final(stores).config@ == old(stores).config@,
            final(stores).minted@ == old(stores).minted@,
            !(old(self).waits_in(WithdrawStage::Signed) && old(self).block_index is Some)
                ==> is_out_of_turn(action) && *final(self) == *old(self) && final(stores).finalized@ == old(stores).finalized@,
            old(self).waits_in(WithdrawStage::Signed) && old(self).block_index is Some ==> (
            match outcome {
                Err(failure) => {
                    &&& action matches Err(BridgeError::ExecutionRejected(d))
                    &&& match failure {
                        HttpFailure::Transport(detail) => d == detail,
                        HttpFailure::Malformed(detail) => d == detail,
                    }
                    &&& old(self).fails_to(*final(self))
                    &&& final(stores).finalized@ == old(stores).finalized@
                },
                Ok(executed) => {
                    let block_index = old(self).block_index->0.text();
                    &&& old(self).moves_to(*final(self), WithdrawStage::Recorded)
                    &&& action matches Ok(WithdrawAction::Done(response))
                    &&& response.tx_digest == executed.result.digest
                    &&& final(stores).finalized@ == old(stores).finalized@.insert(
                        block_index,
                        withdraw_record_text(
                            block_index,
                            decimal_text(now as nat),
                            old(self).amount@,
                            old(self).caller@,
                            explorer_url(old(self).network@, executed.result.digest@),
                        ),
                    )
                },
            }),
    {
        if self.failed || !matches!(self.stage, WithdrawStage::Signed)
            || self.block_index.is_none() {
            return Err(BridgeError::OutOfTurn);
        }
        match outcome {
            Err(HttpFailure::Transport(detail)) => {
                self.failed = true;
                Err(BridgeError::ExecutionRejected(detail))
            },
            Err(HttpFailure::Malformed(detail)) => {
                self.failed = true;
                Err(BridgeError::ExecutionRejected(detail))
            },
            Ok(executed) => {
                let block_index = match &self.block_index {
                    Some(block_index) => block_index.clone(),
                    None => Natural::from_u64(0),
                };
                let record = WithdrawRecord {
                    ledger_block_index: block_index,
                    timestamp: now,
                    amount: self.amount.clone(),
                    caller_principal: self.caller.clone(),
                    destination_tx_reference: explorer_link(
                        self.network.as_str(),
                        executed.result.digest.as_str(),
                    ),
                };
                insert_withdraw_tx(stores, record.to_key(), record.to_text());
                self.stage = WithdrawStage::Recorded;
                Ok(WithdrawAction::Done(WithdrawResponse { tx_digest: executed.result.digest }))
            },
        }
    }
}

} // verus!
