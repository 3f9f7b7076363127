//! The DNS claim kind: control of a domain, proved by a TXT record that
//! embeds a signature after a caller-supplied prefix.

use vstd::prelude::*;
use vstd::string::StringExecFns;
use crate::signer::{
    spec_did, spec_signature_valid, spec_signer_key, spec_signer_resolvable, SignerError,
    SignerTypes, DID,
};
use crate::witness::WitnessError;

verus! {

/// A DNS claim: the domain, the TXT-record prefix, and the claimed key.
/// The same value serves as statement options and as claim input; the
/// signature lives in the published TXT record, not here.
#[derive(Clone, Debug)]
pub struct Claim {
    pub domain: String,
    pub prefix: String,
    pub key_type: DID,
}

/// Canonical signable text of a DNS claim.
pub open spec fn spec_statement(c: Claim) -> Seq<char> {
    c.domain@ + " is linked to "@ + spec_did(c.key_type)
}

impl Claim {
    /// Renders the exact signable text; identical options yield
    /// byte-identical text.
    pub fn generate_statement(&self) -> (r: Result<String, WitnessError>)
        ensures
            r matches Ok(s) && s@ == spec_statement(*self),
    {
        let did = match self.key_type.did() {
            Ok(d) => d,
            Err(e) => {
                return Err(WitnessError::SignerResolution(e));
            },
        };
        let mut s = String::new();
        s.append(self.domain.as_str());
        s.append(" is linked to ");
        s.append(did.as_str());
        Ok(s)
    }

    /// The substring that precedes the signature inside the TXT record:
    /// the caller-supplied prefix.
    pub fn delimitor(&self) -> (r: String)
        ensures
            r@ == self.prefix@,
    {
        self.prefix.clone()
    }

    /// The signer that must have produced the published signature.
    pub fn signer_type(&self) -> (r: Result<SignerTypes, SignerError>)
        ensures
            r is Ok <==> spec_signer_resolvable(self.key_type),
            r matches Ok(st) ==> st matches SignerTypes::Ed25519 { public_key }
                && public_key@ == spec_signer_key(self.key_type),
            r matches Err(e) ==> e is InvalidId,
    {
        SignerTypes::new(&self.key_type)
    }

    /// The verification gate for this kind: checks a signature extracted
    /// from the published TXT record (fetching it is the out-of-scope
    /// collaborator's job) against the recomputed statement text and the
    /// resolved key. Accepts exactly the valid signatures.
    pub fn verify_signature(&self, signature: &str) -> (r: Result<(), WitnessError>)
        ensures
            r is Ok <==> spec_signer_resolvable(self.key_type) && spec_signature_valid(
                self.key_type,
                spec_statement(*self),
                signature@,
            ),
            !spec_signer_resolvable(self.key_type) ==> (r matches Err(e)
                && e is SignerResolution),
            r matches Err(e) && e is SignatureInvalid ==> spec_signer_resolvable(self.key_type),
    {
        let statement = match self.generate_statement() {
            Ok(s) => s,
            Err(e) => {
                return Err(e);
            },
        };
        let st = match SignerTypes::new(&self.key_type) {
            Ok(s) => s,
            Err(e) => {
                return Err(WitnessError::SignerResolution(e));
            },
        };
        match st.valid_signature(statement.as_str(), signature) {
            Ok(()) => Ok(()),
            Err(e) => Err(WitnessError::SignatureInvalid(e)),
        }
    }
}

} // verus!
