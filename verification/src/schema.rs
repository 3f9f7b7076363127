//! The credential schema: the shapes a verified claim is mapped onto.
//!
//! A credential document holds the JSON-LD context (kept as its exact
//! canonical text), the type list, a kind-specific credential subject,
//! and an optional evidence block whose auxiliary facts allow independent
//! re-verification. The vocabulary IRIs are placeholders pending stable
//! ones.

use vstd::prelude::*;

verus! {

/// Internal-consistency failure during credential assembly.
#[derive(Clone, Debug)]
pub enum SchemaError {
    BadSubject(String),
}

/// An evidence block: a type list and plain key/value facts.
#[derive(Clone, Debug)]
pub struct Evidence {
    pub evidence_type: Vec<String>,
    pub properties: Vec<(String, String)>,
}

/// Credential subject of a DNS claim.
#[derive(Clone, Debug)]
pub struct DnsSubject {
    pub subject_type: String,
    pub domain: String,
    pub key: String,
}

/// Credential subject of a follow claim witnessed by the service.
#[derive(Clone, Debug)]
pub struct FollowSubject {
    pub subject_type: String,
    pub follower: String,
    pub following: String,
}

/// Credential subject of a follow relation asserted about one identity.
#[derive(Clone, Debug)]
pub struct FollowerSubject {
    pub subject_type: String,
    pub follows: String,
}

/// Credential subject of a handle-control claim (GitHub, Twitter).
#[derive(Clone, Debug)]
pub struct HandleSubject {
    pub subject_type: String,
    pub handle: String,
    pub key: String,
}

/// Credential subject of a self-signed key link.
#[derive(Clone, Debug)]
pub struct KeyLinkSubject {
    pub subject_type: String,
    pub key_1: String,
    pub key_2: String,
}

/// The closed set of credential subjects, one arm per claim kind.
#[derive(Clone, Debug)]
pub enum SubjectTypes {
    Dns(DnsSubject),
    Follow(FollowSubject),
    GitHub(HandleSubject),
    SelfSigned(KeyLinkSubject),
    Twitter(HandleSubject),
}

/// A verifiable-credential-shaped document derived from a verified claim.
/// Produced once, never mutated.
#[derive(Clone, Debug)]
pub struct VerifiableCredentialDocument {
    /// The JSON-LD context, as its exact canonical text.
    pub context: String,
    /// The credential type list.
    pub types: Vec<String>,
    /// The kind-specific credential subject.
    pub subject: SubjectTypes,
    /// Auxiliary facts for independent re-verification, where the kind has
    /// any.
    pub evidence: Option<Evidence>,
}

} // verus!
