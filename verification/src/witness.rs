//! The witness operations' shared types: typed errors and the
//! request/response shapes of the statement and witness operations.

use vstd::prelude::*;
use crate::proof_type::ProofTypes;
use crate::signer::SignerError;
use crate::statement_type::{spec_delimitor, spec_statement_text, StatementTypes};

verus! {

/// Failures of statement generation and claim construction, kept apart
/// so a caller can tell what went wrong.
#[derive(Clone, Debug)]
pub enum WitnessError {
    /// Statement generation failed.
    Statement(String),
    /// The signer could not be resolved from the DID.
    SignerResolution(SignerError),
    /// The signature did not validate against the recomputed statement.
    SignatureInvalid(SignerError),
}

/// Request of the statement operation: the kind-tagged statement options.
pub struct StatementReq {
    pub opts: StatementTypes,
}

/// Response of the statement operation: the exact signable text and the
/// delimiter for kinds that embed the signature in a hosted document.
pub struct StatementRes {
    pub statement: String,
    pub delimitor: String,
}

/// Request of the witness operations: the kind-tagged claim input.
pub struct WitnessReq {
    pub proof: ProofTypes,
}

/// Response of the JWT witness operation.
pub struct WitnessJWTRes {
    pub jwt: String,
}

/// The statement operation itself: renders the signable text and the
/// delimiter for the requested kind. Pure and total.
pub fn statement_response(req: &StatementReq) -> (r: Result<StatementRes, WitnessError>)
    ensures
        r matches Ok(res) && res.statement@ == spec_statement_text(req.opts)
            && res.delimitor@ == spec_delimitor(req.opts),
{
    let statement = match req.opts.generate_statement() {
        Ok(s) => s,
        Err(e) => {
            return Err(e);
        },
    };
    let delimitor = req.opts.delimitor();
    Ok(StatementRes { statement, delimitor })
}

} // verus!
