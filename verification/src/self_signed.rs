//! The self-signed claim kind: a link between two keys, attested by a
//! signature from each. Nothing is published anywhere; the signed payload
//! is the statement itself.

use vstd::prelude::*;
use vstd::string::StringExecFns;
use crate::signer::{
    spec_did, spec_signature_valid, spec_signer_resolvable, SignerTypes, DID,
};
use crate::witness::WitnessError;

verus! {

/// Statement options for a self-signed key link: the two DIDs.
#[derive(Clone, Debug)]
pub struct Opts {
    pub key_1: DID,
    pub key_2: DID,
}

/// Canonical signable text of a self-signed key link.
pub open spec fn spec_statement(o: Opts) -> Seq<char> {
    spec_did(o.key_1) + " is linked to "@ + spec_did(o.key_2)
}

/// Both signatures validate over the statement text, one per key.
pub open spec fn spec_accepted(o: Opts, sig_1: Seq<char>, sig_2: Seq<char>) -> bool {
    &&& spec_signer_resolvable(o.key_1)
    &&& spec_signer_resolvable(o.key_2)
    &&& spec_signature_valid(o.key_1, spec_statement(o), sig_1)
    &&& spec_signature_valid(o.key_2, spec_statement(o), sig_2)
}

impl Opts {
    /// Renders the exact signable text; identical options yield
    /// byte-identical text.
    pub fn generate_self_signed(&self) -> (r: Result<String, WitnessError>)
        ensures
            r matches Ok(s) && s@ == spec_statement(*self),
    {
        let did_1 = match self.key_1.did() {
            Ok(d) => d,
            Err(e) => {
                return Err(WitnessError::SignerResolution(e));
            },
        };
        let did_2 = match self.key_2.did() {
            Ok(d) => d,
            Err(e) => {
                return Err(WitnessError::SignerResolution(e));
            },
        };
        let mut s = String::new();
        s.append(did_1.as_str());
        s.append(" is linked to ");
        s.append(did_2.as_str());
        Ok(s)
    }
}

/// A verified self-signed key link. Values exist only through [`Claim::new`],
/// which admits exactly the option pairs whose two signatures both validate.
#[derive(Clone, Debug)]
pub struct Claim {
    pub statement_opts: Opts,
    pub signature_1: String,
    pub signature_2: String,
}

impl Claim {
    /// The verification gate: recomputes the statement text, resolves both
    /// keys, and requires one valid signature per key over the identical
    /// text. Fails closed: no `Claim` value exists otherwise.
    pub fn new(statement_opts: Opts, signature_1: String, signature_2: String) -> (r: Result<
        Claim,
        WitnessError,
    >)
        ensures
            r is Ok <==> spec_accepted(statement_opts, signature_1@, signature_2@),
            r matches Ok(c) ==> c.statement_opts == statement_opts && c.signature_1@
                == signature_1@ && c.signature_2@ == signature_2@,
            !(spec_signer_resolvable(statement_opts.key_1) && spec_signer_resolvable(
                statement_opts.key_2,
            )) ==> (r matches Err(e) && e is SignerResolution),
            r matches Err(e) && e is SignatureInvalid ==> spec_signer_resolvable(
                statement_opts.key_1,
            ) && spec_signer_resolvable(statement_opts.key_2),
    {
        let statement = match statement_opts.generate_self_signed() {
            Ok(s) => s,
            Err(e) => {
                return Err(e);
            },
        };
        let st_1 = match SignerTypes::new(&statement_opts.key_1) {
            Ok(s) => s,
            Err(e) => {
                return Err(WitnessError::SignerResolution(e));
            },
        };
        let st_2 = match SignerTypes::new(&statement_opts.key_2) {
            Ok(s) => s,
            Err(e) => {
                return Err(WitnessError::SignerResolution(e));
            },
        };
        match st_1.valid_signature(statement.as_str(), signature_1.as_str()) {
            Ok(()) => (),
            Err(e) => {
                return Err(WitnessError::SignatureInvalid(e));
            },
        };
        match st_2.valid_signature(statement.as_str(), signature_2.as_str()) {
            Ok(()) => (),
            Err(e) => {
                return Err(WitnessError::SignatureInvalid(e));
            },
        };
        Ok(Claim { statement_opts, signature_1, signature_2 })
    }
}

} // verus!
