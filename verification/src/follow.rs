//! The follow claim kind: one identity declares that it follows another,
//! attested by a signature from the follower's key. The signed payload is
//! the statement itself; nothing is published elsewhere.

use vstd::prelude::*;
use vstd::string::StringExecFns;
use crate::key_to_key_link::KeyToKeyLink;
use crate::schema::{Evidence, FollowSubject, FollowerSubject, SchemaError};
use crate::signer::{spec_did, spec_signature_valid, spec_signer_resolvable, SignerTypes, DID};
use crate::witness::WitnessError;

verus! {

/// Canonical signable text of a follow statement.
pub open spec fn spec_statement(opts: KeyToKeyLink) -> Seq<char> {
    spec_did(opts.key_1) + " follows "@ + spec_did(opts.key_2)
}

/// The follower's signature validates over the statement text.
pub open spec fn spec_accepted(opts: KeyToKeyLink, sig: Seq<char>) -> bool {
    spec_signer_resolvable(opts.key_1) && spec_signature_valid(
        opts.key_1,
        spec_statement(opts),
        sig,
    )
}

/// Renders the exact signable text of a follow statement; identical
/// options yield byte-identical text.
pub fn generate_statement(statement_opts: &KeyToKeyLink) -> (r: Result<String, WitnessError>)
    ensures
        r matches Ok(s) && s@ == spec_statement(*statement_opts),
{
    let did_1 = match statement_opts.key_1.did() {
        Ok(d) => d,
        Err(e) => {
            return Err(WitnessError::SignerResolution(e));
        },
    };
    let did_2 = match statement_opts.key_2.did() {
        Ok(d) => d,
        Err(e) => {
            return Err(WitnessError::SignerResolution(e));
        },
    };
    let mut s = String::new();
    s.append(did_1.as_str());
    s.append(" follows ");
    s.append(did_2.as_str());
    Ok(s)
}

/// Verification is idempotent: whether a statement/signature pair is
/// accepted is a pure predicate of the pair, so re-submitting identical
/// inputs always yields the identical accept/reject outcome.
pub proof fn lemma_acceptance_deterministic(
    opts: KeyToKeyLink,
    sig: Seq<char>,
    r1: bool,
    r2: bool,
)
    requires
        r1 == spec_accepted(opts, sig),
        r2 == spec_accepted(opts, sig),
    ensures
        r1 == r2,
{
}

/// A verified follow claim. Values exist only through [`Claim::new`],
/// which admits exactly the inputs whose signature validates under the
/// follower's key.
#[derive(Clone, Debug)]
pub struct Claim {
    pub statement_opts: KeyToKeyLink,
    pub signature: String,
}

impl Claim {
    /// The verification gate: recomputes the statement text, resolves the
    /// follower's key, and requires a valid signature over the text.
    /// Fails closed: no `Claim` value exists otherwise.
    pub fn new(statement_opts: KeyToKeyLink, signature: String) -> (r: Result<
        Claim,
        WitnessError,
    >)
        ensures
            r is Ok <==> spec_accepted(statement_opts, signature@),
            r matches Ok(c) ==> c.statement_opts == statement_opts && c.signature@ == signature@,
            !spec_signer_resolvable(statement_opts.key_1) ==> (r matches Err(e)
                && e is SignerResolution),
            r matches Err(e) && e is SignatureInvalid ==> spec_signer_resolvable(
                statement_opts.key_1,
            ),
    {
        let statement = match generate_statement(&statement_opts) {
            Ok(s) => s,
            Err(e) => {
                return Err(e);
            },
        };
        let st = match SignerTypes::new(&statement_opts.key_1) {
            Ok(s) => s,
            Err(e) => {
                return Err(WitnessError::SignerResolution(e));
            },
        };
        match st.valid_signature(statement.as_str(), signature.as_str()) {
            Ok(()) => Ok(Claim { statement_opts, signature }),
            Err(e) => Err(WitnessError::SignatureInvalid(e)),
        }
    }

    /// The JSON-LD context of a witnessed follow credential, as its exact
    /// canonical text.
    pub fn context(&self) -> (r: Result<String, SchemaError>)
        ensures
            r matches Ok(s) && s@ == spec_witness_follow_context(),
    {
        Ok(
            String::from_str(
                "[\"https://www.w3.org/2018/credentials/v1\",{\"WitnessFollowCredential\":\"https://example.com/FollowCredential\",\"WitnessFollowSubject\":{\"@id\":\"https://example.com/WitnessFollowSubject\",\"@context\":{\"follower\":\"https://example.com/follower\",\"follows\":\"https://example.com/follows\"}},\"WitnessFollowEvidence\":{\"@id\":\"https://example.com/WitnessFollowEvidence\",\"@context\":{\"follower_signature\":\"https://example.com/follower_signature\",\"statement\":\"https://example.com/statement\"}}}]",
            ),
        )
    }

    /// The credential type list: the base type plus this kind's own.
    pub fn types(&self) -> (r: Result<Vec<String>, SchemaError>)
        ensures
            r matches Ok(v) && v@.len() == 2 && v@[0]@ == "VerifiableCredential"@ && v@[1]@
                == "WitnessFollowCredential"@,
    {
        let mut v: Vec<String> = Vec::new();
        v.push(String::from_str("VerifiableCredential"));
        v.push(String::from_str("WitnessFollowCredential"));
        Ok(v)
    }

    /// The credential subject: who follows whom, by canonical DID string.
    pub fn subject(&self) -> (r: Result<FollowSubject, SchemaError>)
        ensures
            r matches Ok(s) && s.subject_type@ == "WitnessFollowSubject"@ && s.follower@
                == spec_did(self.statement_opts.key_1) && s.following@ == spec_did(
                self.statement_opts.key_2,
            ),
    {
        let follower = match self.statement_opts.key_1.did() {
            Ok(d) => d,
            Err(_) => {
                return Err(SchemaError::BadSubject(String::from_str("follower")));
            },
        };
        let following = match self.statement_opts.key_2.did() {
            Ok(d) => d,
            Err(_) => {
                return Err(SchemaError::BadSubject(String::from_str("following")));
            },
        };
        Ok(
            FollowSubject {
                subject_type: String::from_str("WitnessFollowSubject"),
                follower,
                following,
            },
        )
    }

    /// The evidence block: the exact statement text and the follower's
    /// signature, enabling independent re-verification.
    pub fn evidence(&self) -> (r: Result<Option<Evidence>, SchemaError>)
        ensures
            r matches Ok(o) && o matches Some(e) && e.evidence_type@.len() == 1
                && e.evidence_type@[0]@ == "WitnessFollowEvidence"@ && e.properties@.len() == 2
                && e.properties@[0].0@ == "statement"@ && e.properties@[0].1@ == spec_statement(
                self.statement_opts,
            ) && e.properties@[1].0@ == "follower_signature"@ && e.properties@[1].1@
                == self.signature@,
    {
        let statement = match generate_statement(&self.statement_opts) {
            Ok(s) => s,
            Err(_) => {
                return Err(SchemaError::BadSubject(String::from_str("statement")));
            },
        };
        let mut evidence_type: Vec<String> = Vec::new();
        evidence_type.push(String::from_str("WitnessFollowEvidence"));
        let mut properties: Vec<(String, String)> = Vec::new();
        properties.push((String::from_str("statement"), statement));
        properties.push((String::from_str("follower_signature"), self.signature.clone()));
        Ok(Some(Evidence { evidence_type, properties }))
    }
}

/// The JSON-LD context text of a witnessed follow credential.
pub open spec fn spec_witness_follow_context() -> Seq<char> {
    "[\"https://www.w3.org/2018/credentials/v1\",{\"WitnessFollowCredential\":\"https://example.com/FollowCredential\",\"WitnessFollowSubject\":{\"@id\":\"https://example.com/WitnessFollowSubject\",\"@context\":{\"follower\":\"https://example.com/follower\",\"follows\":\"https://example.com/follows\"}},\"WitnessFollowEvidence\":{\"@id\":\"https://example.com/WitnessFollowEvidence\",\"@context\":{\"follower_signature\":\"https://example.com/follower_signature\",\"statement\":\"https://example.com/statement\"}}}]"@
}

/// The JSON-LD context text of a follow relation credential.
pub open spec fn spec_follower_context() -> Seq<char> {
    "[\"https://www.w3.org/2018/credentials/v1\",{\"FollowCredential\":\"https://example.com/FollowCredential\",\"Follow\":{\"@id\":\"https://example.com/Follow\",\"@context\":{\"follows\":\"https://example.com/follows\"}}}]"@
}

/// A follow relation asserted about one identity: the subject of a plain
/// follow credential.
#[derive(Clone, Debug)]
pub struct Follower {
    pub follows: DID,
}

impl Follower {
    pub fn new(follows: DID) -> (r: Follower)
        ensures
            r.follows == follows,
    {
        Follower { follows }
    }

    /// The JSON-LD context of a follow credential, as its exact canonical
    /// text.
    pub fn context(&self) -> (r: Result<String, SchemaError>)
        ensures
            r matches Ok(s) && s@ == spec_follower_context(),
    {
        Ok(
            String::from_str(
                "[\"https://www.w3.org/2018/credentials/v1\",{\"FollowCredential\":\"https://example.com/FollowCredential\",\"Follow\":{\"@id\":\"https://example.com/Follow\",\"@context\":{\"follows\":\"https://example.com/follows\"}}}]",
            ),
        )
    }

    /// The credential type list: the base type plus this kind's own.
    pub fn types(&self) -> (r: Result<Vec<String>, SchemaError>)
        ensures
            r matches Ok(v) && v@.len() == 2 && v@[0]@ == "VerifiableCredential"@ && v@[1]@
                == "FollowCredential"@,
    {
        let mut v: Vec<String> = Vec::new();
        v.push(String::from_str("VerifiableCredential"));
        v.push(String::from_str("FollowCredential"));
        Ok(v)
    }

    /// The credential subject: whom this identity follows, by canonical
    /// DID string.
    pub fn subject(&self) -> (r: Result<FollowerSubject, SchemaError>)
        ensures
            r matches Ok(s) && s.subject_type@ == "Follow"@ && s.follows@ == spec_did(
                self.follows,
            ),
    {
        let follows = match self.follows.did() {
            Ok(d) => d,
            Err(_) => {
                return Err(SchemaError::BadSubject(String::from_str("follows")));
            },
        };
        Ok(FollowerSubject { subject_type: String::from_str("Follow"), follows })
    }

    /// A plain follow credential carries no evidence block.
    pub fn evidence(&self) -> (r: Result<Option<Evidence>, SchemaError>)
        ensures
            r matches Ok(o) && o is None,
    {
        Ok(None)
    }
}

} // verus!
