//! The GitHub claim kind: control of a handle, proved by a gist that
//! embeds a signature after the statement text.

use vstd::prelude::*;
use vstd::string::StringExecFns;
use crate::signer::{
    spec_did, spec_signature_valid, spec_signer_key, spec_signer_resolvable, SignerError,
    SignerTypes, DID,
};
use crate::witness::WitnessError;

verus! {

/// Statement options for a GitHub claim: the handle and the claimed key.
#[derive(Clone, Debug)]
pub struct Opts {
    pub handle: String,
    pub key_type: DID,
}

/// Canonical signable text of a GitHub claim.
pub open spec fn spec_statement(o: Opts) -> Seq<char> {
    "I am attesting that this GitHub handle "@ + o.handle@ + " is linked to "@ + spec_did(
        o.key_type,
    )
}

/// The delimiter between statement and signature inside the gist.
pub open spec fn spec_delimitor() -> Seq<char> {
    "\n\n"@
}

impl Opts {
    /// Renders the exact signable text; identical options yield
    /// byte-identical text.
    pub fn generate_statement(&self) -> (r: Result<String, WitnessError>)
        ensures
            r matches Ok(s) && s@ == spec_statement(*self),
    {
        let did = match self.key_type.did() {
            Ok(d) => d,
            Err(e) => {
                return Err(WitnessError::SignerResolution(e));
            },
        };
        let mut s = String::new();
        s.append("I am attesting that this GitHub handle ");
        s.append(self.handle.as_str());
        s.append(" is linked to ");
        s.append(did.as_str());
        Ok(s)
    }

    /// The substring that separates statement and signature in the gist.
    pub fn delimitor(&self) -> (r: String)
        ensures
            r@ == spec_delimitor(),
    {
        String::from_str("\n\n")
    }

    /// The signer that must have produced the published signature.
    pub fn signer_type(&self) -> (r: Result<SignerTypes, SignerError>)
        ensures
            r is Ok <==> spec_signer_resolvable(self.key_type),
            r matches Ok(st) ==> st matches SignerTypes::Ed25519 { public_key }
                && public_key@ == spec_signer_key(self.key_type),
            r matches Err(e) ==> e is InvalidId,
    {
        SignerTypes::new(&self.key_type)
    }
}

/// Claim input for the GitHub kind: the statement options plus the
/// reference to the hosted artifact (the gist).
#[derive(Clone, Debug)]
pub struct Claim {
    pub gist_id: String,
    pub statement_opts: Opts,
}

impl Claim {
    /// The verification gate for this kind: checks a signature extracted
    /// from the gist (fetched by the out-of-scope collaborator) against
    /// the recomputed statement text and the resolved key.
    pub fn verify_signature(&self, signature: &str) -> (r: Result<(), WitnessError>)
        ensures
            r is Ok <==> spec_signer_resolvable(self.statement_opts.key_type)
                && spec_signature_valid(
                self.statement_opts.key_type,
                spec_statement(self.statement_opts),
                signature@,
            ),
            !spec_signer_resolvable(self.statement_opts.key_type) ==> (r matches Err(e)
                && e is SignerResolution),
            r matches Err(e) && e is SignatureInvalid ==> spec_signer_resolvable(
                self.statement_opts.key_type,
            ),
    {
        let statement = match self.statement_opts.generate_statement() {
            Ok(s) => s,
            Err(e) => {
                return Err(e);
            },
        };
        let st = match SignerTypes::new(&self.statement_opts.key_type) {
            Ok(s) => s,
            Err(e) => {
                return Err(WitnessError::SignerResolution(e));
            },
        };
        match st.valid_signature(statement.as_str(), signature) {
            Ok(()) => Ok(()),
            Err(e) => Err(WitnessError::SignatureInvalid(e)),
        }
    }
}

} // verus!
