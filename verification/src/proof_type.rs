//! The claim-phase kind registry, and the schema builder that maps a
//! verified claim onto its credential document.
//!
//! The registry mirrors the statement-phase one arm for arm; the builder
//! dispatches purely on the kind tag. It is a pure function of the claim
//! and fails on no claim value, since bad input was already rejected at
//! claim construction.

use vstd::prelude::*;
use vstd::string::StringExecFns;
use crate::dns;
use crate::follow;
use crate::github;
use crate::schema::{
    DnsSubject, Evidence, HandleSubject, KeyLinkSubject, SchemaError, SubjectTypes,
    VerifiableCredentialDocument,
};
use crate::self_signed;
use crate::signer::spec_did;
use crate::twitter;

verus! {

/// The closed set of claim kinds, in lock-step with the statement kinds.
pub enum ProofTypes {
    Dns(dns::Claim),
    Follow(follow::Claim),
    GitHub(github::Claim),
    SelfSigned(self_signed::Claim),
    Twitter(twitter::Claim),
}

/// The JSON-LD context text of a DNS credential.
pub open spec fn spec_dns_context() -> Seq<char> {
    "[\"https://www.w3.org/2018/credentials/v1\",{\"DnsCredential\":\"https://example.com/DnsCredential\",\"DnsSubject\":{\"@id\":\"https://example.com/DnsSubject\",\"@context\":{\"domain\":\"https://example.com/domain\",\"key\":\"https://example.com/key\"}},\"DnsEvidence\":{\"@id\":\"https://example.com/DnsEvidence\",\"@context\":{\"statement\":\"https://example.com/statement\"}}}]"@
}

/// The JSON-LD context text of a GitHub credential.
pub open spec fn spec_github_context() -> Seq<char> {
    "[\"https://www.w3.org/2018/credentials/v1\",{\"GitHubCredential\":\"https://example.com/GitHubCredential\",\"GitHubSubject\":{\"@id\":\"https://example.com/GitHubSubject\",\"@context\":{\"handle\":\"https://example.com/handle\",\"key\":\"https://example.com/key\"}},\"GitHubEvidence\":{\"@id\":\"https://example.com/GitHubEvidence\",\"@context\":{\"statement\":\"https://example.com/statement\",\"gist_id\":\"https://example.com/gist_id\"}}}]"@
}

/// The JSON-LD context text of a Twitter credential.
pub open spec fn spec_twitter_context() -> Seq<char> {
    "[\"https://www.w3.org/2018/credentials/v1\",{\"TwitterCredential\":\"https://example.com/TwitterCredential\",\"TwitterSubject\":{\"@id\":\"https://example.com/TwitterSubject\",\"@context\":{\"handle\":\"https://example.com/handle\",\"key\":\"https://example.com/key\"}},\"TwitterEvidence\":{\"@id\":\"https://example.com/TwitterEvidence\",\"@context\":{\"statement\":\"https://example.com/statement\",\"tweet_url\":\"https://example.com/tweet_url\"}}}]"@
}

/// The JSON-LD context text of a self-signed key-link credential.
pub open spec fn spec_self_signed_context() -> Seq<char> {
    "[\"https://www.w3.org/2018/credentials/v1\",{\"SelfSignedCredential\":\"https://example.com/SelfSignedCredential\",\"SelfSignedSubject\":{\"@id\":\"https://example.com/SelfSignedSubject\",\"@context\":{\"key_1\":\"https://example.com/key_1\",\"key_2\":\"https://example.com/key_2\"}},\"SelfSignedEvidence\":{\"@id\":\"https://example.com/SelfSignedEvidence\",\"@context\":{\"statement\":\"https://example.com/statement\",\"signature_1\":\"https://example.com/signature_1\",\"signature_2\":\"https://example.com/signature_2\"}}}]"@
}

/// The context text a claim's credential carries, by kind.
pub open spec fn spec_context_text(p: ProofTypes) -> Seq<char> {
    match p {
        ProofTypes::Dns(_) => spec_dns_context(),
        ProofTypes::Follow(_) => follow::spec_witness_follow_context(),
        ProofTypes::GitHub(_) => spec_github_context(),
        ProofTypes::SelfSigned(_) => spec_self_signed_context(),
        ProofTypes::Twitter(_) => spec_twitter_context(),
    }
}

/// The kind-specific credential type, by kind.
pub open spec fn spec_credential_type(p: ProofTypes) -> Seq<char> {
    match p {
        ProofTypes::Dns(_) => "DnsCredential"@,
        ProofTypes::Follow(_) => "WitnessFollowCredential"@,
        ProofTypes::GitHub(_) => "GitHubCredential"@,
        ProofTypes::SelfSigned(_) => "SelfSignedCredential"@,
        ProofTypes::Twitter(_) => "TwitterCredential"@,
    }
}

/// The credential subject a claim maps onto: the kind's own payload,
/// with every identity in its canonical DID string form.
pub open spec fn spec_subject_ok(p: ProofTypes, s: SubjectTypes) -> bool {
    match p {
        ProofTypes::Dns(c) => s matches SubjectTypes::Dns(d) && d.subject_type@ == "DnsSubject"@
            && d.domain@ == c.domain@ && d.key@ == spec_did(c.key_type),
        ProofTypes::Follow(c) => s matches SubjectTypes::Follow(f) && f.subject_type@
            == "WitnessFollowSubject"@ && f.follower@ == spec_did(c.statement_opts.key_1)
            && f.following@ == spec_did(c.statement_opts.key_2),
        ProofTypes::GitHub(c) => s matches SubjectTypes::GitHub(h) && h.subject_type@
            == "GitHubSubject"@ && h.handle@ == c.statement_opts.handle@ && h.key@ == spec_did(
            c.statement_opts.key_type,
        ),
        ProofTypes::SelfSigned(c) => s matches SubjectTypes::SelfSigned(k) && k.subject_type@
            == "SelfSignedSubject"@ && k.key_1@ == spec_did(c.statement_opts.key_1) && k.key_2@
            == spec_did(c.statement_opts.key_2),
        ProofTypes::Twitter(c) => s matches SubjectTypes::Twitter(h) && h.subject_type@
            == "TwitterSubject"@ && h.handle@ == c.statement_opts.handle@ && h.key@ == spec_did(
            c.statement_opts.key_type,
        ),
    }
}

/// The evidence block a claim maps onto: the exact statement text plus
/// the kind's auxiliary facts (signatures held by the claim, or the
/// reference to the hosted artifact).
pub open spec fn spec_evidence_ok(p: ProofTypes, o: Option<Evidence>) -> bool {
    match p {
        ProofTypes::Dns(c) => o matches Some(e) && e.evidence_type@.len() == 1
            && e.evidence_type@[0]@ == "DnsEvidence"@ && e.properties@.len() == 1
            && e.properties@[0].0@ == "statement"@ && e.properties@[0].1@ == dns::spec_statement(c),
        ProofTypes::Follow(c) => o matches Some(e) && e.evidence_type@.len() == 1
            && e.evidence_type@[0]@ == "WitnessFollowEvidence"@ && e.properties@.len() == 2
            && e.properties@[0].0@ == "statement"@ && e.properties@[0].1@
            == follow::spec_statement(c.statement_opts) && e.properties@[1].0@
            == "follower_signature"@ && e.properties@[1].1@ == c.signature@,
        ProofTypes::GitHub(c) => o matches Some(e) && e.evidence_type@.len() == 1
            && e.evidence_type@[0]@ == "GitHubEvidence"@ && e.properties@.len() == 2
            && e.properties@[0].0@ == "statement"@ && e.properties@[0].1@
            == github::spec_statement(c.statement_opts) && e.properties@[1].0@ == "gist_id"@
            && e.properties@[1].1@ == c.gist_id@,
        ProofTypes::SelfSigned(c) => o matches Some(e) && e.evidence_type@.len() == 1
            && e.evidence_type@[0]@ == "SelfSignedEvidence"@ && e.properties@.len() == 3
            && e.properties@[0].0@ == "statement"@ && e.properties@[0].1@
            == self_signed::spec_statement(c.statement_opts) && e.properties@[1].0@
            == "signature_1"@ && e.properties@[1].1@ == c.signature_1@ && e.properties@[2].0@
            == "signature_2"@ && e.properties@[2].1@ == c.signature_2@,
        ProofTypes::Twitter(c) => o matches Some(e) && e.evidence_type@.len() == 1
            && e.evidence_type@[0]@ == "TwitterEvidence"@ && e.properties@.len() == 2
            && e.properties@[0].0@ == "statement"@ && e.properties@[0].1@
            == twitter::spec_statement(c.statement_opts) && e.properties@[1].0@ == "tweet_url"@
            && e.properties@[1].1@ == c.tweet_url@,
    }
}

impl ProofTypes {
    /// Maps a verified claim onto its credential document: context, type
    /// list, subject, evidence. A pure function of the claim; it never
    /// fails on a constructible claim value.
    pub fn build_document(&self) -> (r: Result<VerifiableCredentialDocument, SchemaError>)
        ensures
            r matches Ok(doc) && doc.context@ == spec_context_text(*self) && doc.types@.len() == 2
                && doc.types@[0]@ == "VerifiableCredential"@ && doc.types@[1]@
                == spec_credential_type(*self) && spec_subject_ok(*self, doc.subject)
                && spec_evidence_ok(*self, doc.evidence),
    {
        let mut types: Vec<String> = Vec::new();
        types.push(String::from_str("VerifiableCredential"));
        match self {
            ProofTypes::Dns(c) => {
                types.push(String::from_str("DnsCredential"));
                let key = match c.key_type.did() {
                    Ok(d) => d,
                    Err(_) => {
                        return Err(SchemaError::BadSubject(String::from_str("key")));
                    },
                };
                let statement = match c.generate_statement() {
                    Ok(s) => s,
                    Err(_) => {
                        return Err(SchemaError::BadSubject(String::from_str("statement")));
                    },
                };
                let mut evidence_type: Vec<String> = Vec::new();
                evidence_type.push(String::from_str("DnsEvidence"));
                let mut properties: Vec<(String, String)> = Vec::new();
                properties.push((String::from_str("statement"), statement));
                Ok(
                    VerifiableCredentialDocument {
                        context: String::from_str(
                            "[\"https://www.w3.org/2018/credentials/v1\",{\"DnsCredential\":\"https://example.com/DnsCredential\",\"DnsSubject\":{\"@id\":\"https://example.com/DnsSubject\",\"@context\":{\"domain\":\"https://example.com/domain\",\"key\":\"https://example.com/key\"}},\"DnsEvidence\":{\"@id\":\"https://example.com/DnsEvidence\",\"@context\":{\"statement\":\"https://example.com/statement\"}}}]",
                        ),
                        types,
                        subject: SubjectTypes::Dns(
                            DnsSubject {
                                subject_type: String::from_str("DnsSubject"),
                                domain: c.domain.clone(),
                                key,
                            },
                        ),
                        evidence: Some(Evidence { evidence_type, properties }),
                    },
                )
            },
            ProofTypes::Follow(c) => {
                types.push(String::from_str("WitnessFollowCredential"));
                let context = match c.context() {
                    Ok(s) => s,
                    Err(e) => {
                        return Err(e);
                    },
                };
                let subject = match c.subject() {
                    Ok(s) => s,
                    Err(e) => {
                        return Err(e);
                    },
                };
                let evidence = match c.evidence() {
                    Ok(o) => o,
                    Err(e) => {
                        return Err(e);
                    },
                };
                Ok(
                    VerifiableCredentialDocument {
                        context,
                        types,
                        subject: SubjectTypes::Follow(subject),
                        evidence,
                    },
                )
            },
            ProofTypes::GitHub(c) => {
                types.push(String::from_str("GitHubCredential"));
                let key = match c.statement_opts.key_type.did() {
                    Ok(d) => d,
                    Err(_) => {
                        return Err(SchemaError::BadSubject(String::from_str("key")));
                    },
                };
                let statement = match c.statement_opts.generate_statement() {
                    Ok(s) => s,
                    Err(_) => {
                        return Err(SchemaError::BadSubject(String::from_str("statement")));
                    },
                };
                let mut evidence_type: Vec<String> = Vec::new();
                evidence_type.push(String::from_str("GitHubEvidence"));
                let mut properties: Vec<(String, String)> = Vec::new();
                properties.push((String::from_str("statement"), statement));
                properties.push((String::from_str("gist_id"), c.gist_id.clone()));
                Ok(
                    VerifiableCredentialDocument {
                        context: String::from_str(
                            "[\"https://www.w3.org/2018/credentials/v1\",{\"GitHubCredential\":\"https://example.com/GitHubCredential\",\"GitHubSubject\":{\"@id\":\"https://example.com/GitHubSubject\",\"@context\":{\"handle\":\"https://example.com/handle\",\"key\":\"https://example.com/key\"}},\"GitHubEvidence\":{\"@id\":\"https://example.com/GitHubEvidence\",\"@context\":{\"statement\":\"https://example.com/statement\",\"gist_id\":\"https://example.com/gist_id\"}}}]",
                        ),
                        types,
                        subject: SubjectTypes::GitHub(
                            HandleSubject {
                                subject_type: String::from_str("GitHubSubject"),
                                handle: c.statement_opts.handle.clone(),
                                key,
                            },
                        ),
                        evidence: Some(Evidence { evidence_type, properties }),
                    },
                )
            },
            ProofTypes::SelfSigned(c) => {
                types.push(String::from_str("SelfSignedCredential"));
                let key_1 = match c.statement_opts.key_1.did() {
                    Ok(d) => d,
                    Err(_) => {
                        return Err(SchemaError::BadSubject(String::from_str("key_1")));
                    },
                };
                let key_2 = match c.statement_opts.key_2.did() {
                    Ok(d) => d,
                    Err(_) => {
                        return Err(SchemaError::BadSubject(String::from_str("key_2")));
                    },
                };
                let statement = match c.statement_opts.generate_self_signed() {
                    Ok(s) => s,
                    Err(_) => {
                        return Err(SchemaError::BadSubject(String::from_str("statement")));
                    },
                };
                let mut evidence_type: Vec<String> = Vec::new();
                evidence_type.push(String::from_str("SelfSignedEvidence"));
                let mut properties: Vec<(String, String)> = Vec::new();
                properties.push((String::from_str("statement"), statement));
                properties.push((String::from_str("signature_1"), c.signature_1.clone()));
                properties.push((String::from_str("signature_2"), c.signature_2.clone()));
                Ok(
                    VerifiableCredentialDocument {
                        context: String::from_str(
                            "[\"https://www.w3.org/2018/credentials/v1\",{\"SelfSignedCredential\":\"https://example.com/SelfSignedCredential\",\"SelfSignedSubject\":{\"@id\":\"https://example.com/SelfSignedSubject\",\"@context\":{\"key_1\":\"https://example.com/key_1\",\"key_2\":\"https://example.com/key_2\"}},\"SelfSignedEvidence\":{\"@id\":\"https://example.com/SelfSignedEvidence\",\"@context\":{\"statement\":\"https://example.com/statement\",\"signature_1\":\"https://example.com/signature_1\",\"signature_2\":\"https://example.com/signature_2\"}}}]",
                        ),
                        types,
                        subject: SubjectTypes::SelfSigned(
                            KeyLinkSubject {
                                subject_type: String::from_str("SelfSignedSubject"),
                                key_1,
                                key_2,
                            },
                        ),
                        evidence: Some(Evidence { evidence_type, properties }),
                    },
                )
            },
            ProofTypes::Twitter(c) => {
                types.push(String::from_str("TwitterCredential"));
                let key = match c.statement_opts.key_type.did() {
                    Ok(d) => d,
                    Err(_) => {
                        return Err(SchemaError::BadSubject(String::from_str("key")));
                    },
                };
                let statement = match c.statement_opts.generate_statement() {
                    Ok(s) => s,
                    Err(_) => {
                        return Err(SchemaError::BadSubject(String::from_str("statement")));
                    },
                };
                let mut evidence_type: Vec<String> = Vec::new();
                evidence_type.push(String::from_str("TwitterEvidence"));
                let mut properties: Vec<(String, String)> = Vec::new();
                properties.push((String::from_str("statement"), statement));
                properties.push((String::from_str("tweet_url"), c.tweet_url.clone()));
                Ok(
                    VerifiableCredentialDocument {
                        context: String::from_str(
                            "[\"https://www.w3.org/2018/credentials/v1\",{\"TwitterCredential\":\"https://example.com/TwitterCredential\",\"TwitterSubject\":{\"@id\":\"https://example.com/TwitterSubject\",\"@context\":{\"handle\":\"https://example.com/handle\",\"key\":\"https://example.com/key\"}},\"TwitterEvidence\":{\"@id\":\"https://example.com/TwitterEvidence\",\"@context\":{\"statement\":\"https://example.com/statement\",\"tweet_url\":\"https://example.com/tweet_url\"}}}]",
                        ),
                        types,
                        subject: SubjectTypes::Twitter(
                            HandleSubject {
                                subject_type: String::from_str("TwitterSubject"),
                                handle: c.statement_opts.handle.clone(),
                                key,
                            },
                        ),
                        evidence: Some(Evidence { evidence_type, properties }),
                    },
                )
            },
        }
    }
}

} // verus!
