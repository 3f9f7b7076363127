//! Identities and the verification capability.
//!
//! A [`DID`] is a method tag plus an opaque identifier, with a canonical
//! string form. [`SignerTypes`] is the closed set of verification
//! capabilities, one per supported DID method, selected by the method tag.
//! The only cryptographic step — checking an Ed25519 signature — is
//! delegated to the `ssi` crate behind a single trusted wrapper.

use vstd::prelude::*;
use vstd::string::StringExecFns;
use crate::hex::{decode_hex, hex_decoded, is_hex_seq};

verus! {

/// A decentralized identifier: a method tag and an opaque identifier.
///
/// For the supported `key` method the identifier is the signer's
/// Ed25519 public key, hex encoded.
#[derive(Clone, Debug)]
pub struct DID {
    pub method: String,
    pub id: String,
}

/// The canonical string form of a DID: `did:<method>:<id>`.
pub open spec fn spec_did(d: DID) -> Seq<char> {
    "did:"@ + d.method@ + ":"@ + d.id@
}

impl DID {
    pub fn new(method: String, id: String) -> (r: DID)
        ensures
            r.method@ == method@,
            r.id@ == id@,
    {
        DID { method, id }
    }

    /// Renders the canonical string form. Total: every DID value has one.
    /// The `Result` shape is kept for callers that thread errors through.
    pub fn did(&self) -> (r: Result<String, SignerError>)
        ensures
            r matches Ok(s) && s@ == spec_did(*self),
    {
        let mut s = String::new();
        s.append("did:");
        s.append(self.method.as_str());
        s.append(":");
        s.append(self.id.as_str());
        Ok(s)
    }
}

/// Failures of identity resolution and signature checking.
#[derive(Clone, Debug)]
pub enum SignerError {
    /// The DID's method tag or identifier resolves to no supported signer.
    InvalidId { signer_type: String, reason: String },
    /// The operation is not defined for this statement kind.
    UnsupportedOperation { signer_type: String, reason: String },
    /// The signature is malformed or does not validate.
    InvalidSignature { signer_type: String, reason: String },
}

/// What `ssi`'s Ed25519 verification returns for a public key, message and
/// signature. A pure function of its arguments: the check is deterministic.
pub uninterp spec fn spec_ed25519_verify(pk: Seq<u8>, msg: Seq<char>, sig: Seq<u8>) -> bool;

/// Relies on `ssi::jws::verify_bytes` with `Algorithm::EdDSA` and an
/// Ed25519 `OKP` key: returns `Ok` exactly when `sig` is a valid Ed25519
/// signature by the key `pk` over the UTF-8 bytes of `msg`.
#[verifier::external_body]
fn ed25519_verify(pk: &Vec<u8>, msg: &str, sig: &Vec<u8>) -> (r: bool)
    ensures
        r == spec_ed25519_verify(pk@, msg@, sig@),
{
    let key = ssi::jwk::JWK::from(ssi::jwk::Params::OKP(ssi::jwk::OctetParams {
        curve: "Ed25519".to_string(),
        public_key: ssi::jwk::Base64urlUInt(pk.clone()),
        private_key: None,
    }));
    ssi::jws::verify_bytes(ssi::jwk::Algorithm::EdDSA, msg.as_bytes(), &key, sig).is_ok()
}

/// The method tag of the one supported DID method.
pub open spec fn spec_supported_method() -> Seq<char> {
    "key"@
}

/// Whether `d` resolves to a signer: supported method, well-formed key.
pub open spec fn spec_signer_resolvable(d: DID) -> bool {
    d.method@ == spec_supported_method() && is_hex_seq(d.id@)
}

/// The public key a resolvable DID carries.
pub open spec fn spec_signer_key(d: DID) -> Seq<u8> {
    hex_decoded(d.id@)
}

/// Whether `sig` (hex text) validates as a signature over `msg` by the
/// key of the resolvable DID `d`.
pub open spec fn spec_signature_valid(d: DID, msg: Seq<char>, sig: Seq<char>) -> bool {
    is_hex_seq(sig) && spec_ed25519_verify(spec_signer_key(d), msg, hex_decoded(sig))
}

/// The closed set of verification capabilities, one arm per DID method.
pub enum SignerTypes {
    /// The `key` method: an Ed25519 public key held directly.
    Ed25519 { public_key: Vec<u8> },
}

impl SignerTypes {
    /// Resolves a DID to its verification capability.
    /// Fails with `InvalidId` exactly when the method is unsupported or
    /// the identifier is not well-formed hex.
    pub fn new(did: &DID) -> (r: Result<SignerTypes, SignerError>)
        ensures
            r is Ok <==> spec_signer_resolvable(*did),
            r matches Ok(st) ==> st matches SignerTypes::Ed25519 { public_key }
                && public_key@ == spec_signer_key(*did),
            r matches Err(e) ==> e is InvalidId,
    {
        if !method_is_supported(&did.method) {
            return Err(SignerError::InvalidId {
                signer_type: did.method.clone(),
                reason: String::from_str("unsupported DID method"),
            });
        }
        match decode_hex(did.id.as_str()) {
            Some(public_key) => Ok(SignerTypes::Ed25519 { public_key }),
            None => Err(SignerError::InvalidId {
                signer_type: did.method.clone(),
                reason: String::from_str("identifier is not a hex public key"),
            }),
        }
    }

    /// Checks `signature` (hex text) against `statement`.
    /// Succeeds exactly when the signature decodes and validates under
    /// this signer's key; any failure is an `InvalidSignature` error.
    pub fn valid_signature(&self, statement: &str, signature: &str) -> (r: Result<
        (),
        SignerError,
    >)
        ensures
            match *self {
                SignerTypes::Ed25519 { public_key } => r is Ok <==> (is_hex_seq(signature@)
                    && spec_ed25519_verify(public_key@, statement@, hex_decoded(signature@))),
            },
            r matches Err(e) ==> e is InvalidSignature,
    {
        match self {
            SignerTypes::Ed25519 { public_key } => {
                let sig = match decode_hex(signature) {
                    Some(v) => v,
                    None => {
                        return Err(SignerError::InvalidSignature {
                            signer_type: String::from_str("key"),
                            reason: String::from_str("signature is not hex"),
                        });
                    },
                };
                if ed25519_verify(public_key, statement, &sig) {
                    Ok(())
                } else {
                    Err(SignerError::InvalidSignature {
                        signer_type: String::from_str("key"),
                        reason: String::from_str("signature does not validate"),
                    })
                }
            },
        }
    }
}

/// Whether `m` equals the supported method tag.
fn method_is_supported(m: &String) -> (r: bool)
    ensures
        r <==> m@ == spec_supported_method(),
{
    let k = String::from_str("key");
    *m == k
}

} // verus!
