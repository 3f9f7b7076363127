//! The statement-phase kind registry: a closed set with one arm per
//! supported claim kind, and the pure dispatch of rendering, delimiter
//! and verifier resolution.

use vstd::prelude::*;
use vstd::string::StringExecFns;
use crate::dns;
use crate::follow;
use crate::github;
use crate::key_to_key_link::KeyToKeyLink;
use crate::self_signed;
use crate::signer::{
    spec_signer_key, spec_signer_resolvable, SignerError, SignerTypes,
};
use crate::twitter;
use crate::witness::WitnessError;

verus! {

/// The closed set of statement kinds. Adding a kind means a matching arm
/// here, in the claim registry, and in the schema builder.
pub enum StatementTypes {
    Dns(dns::Claim),
    Follow(KeyToKeyLink),
    GitHub(github::Opts),
    SelfSigned(self_signed::Opts),
    Twitter(twitter::Opts),
}

/// Canonical signable text of a statement, by kind.
pub open spec fn spec_statement_text(s: StatementTypes) -> Seq<char> {
    match s {
        StatementTypes::Dns(x) => dns::spec_statement(x),
        StatementTypes::Follow(x) => follow::spec_statement(x),
        StatementTypes::GitHub(x) => github::spec_statement(x),
        StatementTypes::SelfSigned(x) => self_signed::spec_statement(x),
        StatementTypes::Twitter(x) => twitter::spec_statement(x),
    }
}

/// The delimiter of a statement, by kind: empty for the kinds whose
/// signed payload is the statement itself, the embedding marker for the
/// kinds that publish the signature inside a hosted document.
pub open spec fn spec_delimitor(s: StatementTypes) -> Seq<char> {
    match s {
        StatementTypes::Dns(x) => x.prefix@,
        StatementTypes::Follow(_) => Seq::<char>::empty(),
        StatementTypes::GitHub(_) => github::spec_delimitor(),
        StatementTypes::SelfSigned(_) => Seq::<char>::empty(),
        StatementTypes::Twitter(_) => twitter::spec_delimitor(),
    }
}

/// The one key a single-signer statement names; meaningful for every kind
/// but the two-key self-signed one.
pub open spec fn spec_signer_did(s: StatementTypes) -> crate::signer::DID {
    match s {
        StatementTypes::Dns(x) => x.key_type,
        StatementTypes::Follow(x) => x.key_1,
        StatementTypes::GitHub(x) => x.key_type,
        StatementTypes::SelfSigned(x) => x.key_1,
        StatementTypes::Twitter(x) => x.key_type,
    }
}

impl StatementTypes {
    /// Renders the exact signable text for this kind. Rendering is pure
    /// and total: identical parameters always yield byte-identical text.
    pub fn generate_statement(&self) -> (r: Result<String, WitnessError>)
        ensures
            r matches Ok(t) && t@ == spec_statement_text(*self),
    {
        match self {
            StatementTypes::Dns(x) => x.generate_statement(),
            StatementTypes::Follow(x) => follow::generate_statement(x),
            StatementTypes::GitHub(x) => x.generate_statement(),
            StatementTypes::SelfSigned(x) => x.generate_self_signed(),
            StatementTypes::Twitter(x) => x.generate_statement(),
        }
    }

    /// The delimiter for this kind; empty exactly for the kinds that
    /// embed nothing in a hosted document.
    pub fn delimitor(&self) -> (r: String)
        ensures
            r@ == spec_delimitor(*self),
    {
        match self {
            StatementTypes::Dns(x) => x.delimitor(),
            StatementTypes::GitHub(x) => x.delimitor(),
            StatementTypes::Twitter(x) => x.delimitor(),
            StatementTypes::Follow(_) => String::new(),
            StatementTypes::SelfSigned(_) => String::new(),
        }
    }

    /// Resolves the one verifier a single-signer statement names. On the
    /// two-key self-signed kind this is not an operation: two independent
    /// keys must each verify, which claim construction drives directly,
    /// so the call fails with the typed unsupported-operation error.
    pub fn signer_type(&self) -> (r: Result<SignerTypes, SignerError>)
        ensures
            *self is SelfSigned ==> (r matches Err(e) && e is UnsupportedOperation),
            !(*self is SelfSigned) ==> {
                &&& r is Ok <==> spec_signer_resolvable(spec_signer_did(*self))
                &&& (r matches Ok(st) ==> st matches SignerTypes::Ed25519 { public_key }
                    && public_key@ == spec_signer_key(spec_signer_did(*self)))
                &&& (r matches Err(e) ==> e is InvalidId)
            },
    {
        match self {
            StatementTypes::Dns(x) => x.signer_type(),
            StatementTypes::GitHub(x) => x.signer_type(),
            StatementTypes::Follow(x) => SignerTypes::new(&x.key_1),
            StatementTypes::Twitter(x) => x.signer_type(),
            StatementTypes::SelfSigned(_) => Err(SignerError::UnsupportedOperation {
                signer_type: String::from_str("2 key"),
                reason: String::from_str("cannot resolve a single signer for a 2 key statement"),
            }),
        }
    }
}

/// Rendering is deterministic: two renderings of the same statement agree
/// byte for byte.
pub proof fn lemma_statement_rendering_deterministic(
    s: StatementTypes,
    r1: Seq<char>,
    r2: Seq<char>,
)
    requires
        r1 == spec_statement_text(s),
        r2 == spec_statement_text(s),
    ensures
        r1 == r2,
{
}

/// The delimiter is empty for the self-signed and follow kinds, whose
/// signed payload is the statement itself, and non-empty for the kinds
/// that embed a signature in a hosted document — for the DNS kind as long
/// as the caller-supplied prefix is non-empty.
pub proof fn lemma_delimitor_by_kind(s: StatementTypes)
    requires
        s matches StatementTypes::Dns(d) ==> d.prefix@.len() > 0,
    ensures
        (s is Follow || s is SelfSigned) <==> spec_delimitor(s).len() == 0,
{
    reveal_strlit("\n\n");
}

} // verus!
