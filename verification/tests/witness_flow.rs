use rebase_witness::client::{Client, ClientError, Endpoints};
use rebase_witness::dns;
use rebase_witness::follow;
use rebase_witness::github;
use rebase_witness::hex::{decode_hex, encode_hex};
use rebase_witness::key_to_key_link::KeyToKeyLink;
use rebase_witness::proof_type::ProofTypes;
use rebase_witness::schema::SubjectTypes;
use rebase_witness::self_signed;
use rebase_witness::signer::{SignerError, SignerTypes, DID};
use rebase_witness::statement_type::StatementTypes;
use rebase_witness::twitter;
use rebase_witness::witness::{statement_response, StatementReq, WitnessError};
use url::Url;

/// A fresh ed25519 keypair: the ssi JWK (for signing) and the library DID
/// naming its public key.
fn new_key() -> (ssi::jwk::JWK, DID) {
    let key = ssi::jwk::JWK::generate_ed25519().unwrap();
    let pk = match &key.params {
        ssi::jwk::Params::OKP(o) => o.public_key.0.clone(),
        _ => panic!("expected an OKP key"),
    };
    let did = DID::new("key".to_string(), encode_hex(&pk));
    (key, did)
}

fn sign(key: &ssi::jwk::JWK, text: &str) -> String {
    let sig = ssi::jws::sign_bytes(ssi::jwk::Algorithm::EdDSA, text.as_bytes(), key).unwrap();
    encode_hex(&sig)
}

fn fixed_did(id: &str) -> DID {
    DID::new("key".to_string(), id.to_string())
}

#[test]
fn did_canonical_form() {
    let did = fixed_did("aabb");
    assert_eq!(did.did().unwrap(), "did:key:aabb");
}

#[test]
fn hex_encode_exact() {
    assert_eq!(encode_hex(&[0xbe, 0xef]), "beef");
    assert_eq!(encode_hex(&[]), "");
    assert_eq!(encode_hex(&[0x00, 0x0a]), "000a");
}

#[test]
fn hex_decode_exact() {
    assert_eq!(decode_hex("beef").unwrap(), vec![0xbe, 0xef]);
    assert_eq!(decode_hex("BEEF").unwrap(), vec![0xbe, 0xef]);
    assert_eq!(decode_hex("").unwrap(), Vec::<u8>::new());
    assert!(decode_hex("abc").is_none());
    assert!(decode_hex("zz").is_none());
}

#[test]
fn dns_statement_text() {
    let opts = dns::Claim {
        domain: "example.com".to_string(),
        prefix: "rebase_sig=".to_string(),
        key_type: fixed_did("aabb"),
    };
    assert_eq!(
        opts.generate_statement().unwrap(),
        "example.com is linked to did:key:aabb"
    );
}

#[test]
fn github_statement_text() {
    let opts = github::Opts {
        handle: "krhoda".to_string(),
        key_type: fixed_did("aabb"),
    };
    assert_eq!(
        opts.generate_statement().unwrap(),
        "I am attesting that this GitHub handle krhoda is linked to did:key:aabb"
    );
}

#[test]
fn twitter_statement_text() {
    let opts = twitter::Opts {
        handle: "evalapplyquote".to_string(),
        key_type: fixed_did("aabb"),
    };
    assert_eq!(
        opts.generate_statement().unwrap(),
        "I am attesting that this Twitter handle @evalapplyquote is linked to did:key:aabb"
    );
}

#[test]
fn follow_statement_text() {
    let opts = KeyToKeyLink {
        key_1: fixed_did("aa"),
        key_2: fixed_did("bb"),
    };
    assert_eq!(
        follow::generate_statement(&opts).unwrap(),
        "did:key:aa follows did:key:bb"
    );
}

#[test]
fn self_signed_statement_text() {
    let opts = self_signed::Opts {
        key_1: fixed_did("aa"),
        key_2: fixed_did("bb"),
    };
    assert_eq!(
        opts.generate_self_signed().unwrap(),
        "did:key:aa is linked to did:key:bb"
    );
}

#[test]
fn statement_rendering_is_deterministic() {
    let mk = || StatementTypes::GitHub(github::Opts {
        handle: "krhoda".to_string(),
        key_type: fixed_did("aabb"),
    });
    let first = mk().generate_statement().unwrap();
    let second = mk().generate_statement().unwrap();
    assert_eq!(first, second);
}

#[test]
fn delimiters_by_kind() {
    let did = fixed_did("aabb");
    let dns = StatementTypes::Dns(dns::Claim {
        domain: "example.com".to_string(),
        prefix: "rebase_sig=".to_string(),
        key_type: did.clone(),
    });
    assert_eq!(dns.delimitor(), "rebase_sig=");
    let github = StatementTypes::GitHub(github::Opts {
        handle: "krhoda".to_string(),
        key_type: did.clone(),
    });
    assert_eq!(github.delimitor(), "\n\n");
    let twitter = StatementTypes::Twitter(twitter::Opts {
        handle: "evalapplyquote".to_string(),
        key_type: did.clone(),
    });
    assert_eq!(twitter.delimitor(), "\n\n");
    let follow = StatementTypes::Follow(KeyToKeyLink {
        key_1: did.clone(),
        key_2: did.clone(),
    });
    assert_eq!(follow.delimitor(), "");
    let self_signed = StatementTypes::SelfSigned(self_signed::Opts {
        key_1: did.clone(),
        key_2: did,
    });
    assert_eq!(self_signed.delimitor(), "");
}

#[test]
fn signer_type_on_self_signed_is_unsupported() {
    let opts = StatementTypes::SelfSigned(self_signed::Opts {
        key_1: fixed_did("aa"),
        key_2: fixed_did("bb"),
    });
    assert!(matches!(
        opts.signer_type(),
        Err(SignerError::UnsupportedOperation { .. })
    ));
}

#[test]
fn signer_type_resolution() {
    let good = StatementTypes::Follow(KeyToKeyLink {
        key_1: fixed_did("aabb"),
        key_2: fixed_did("ccdd"),
    });
    assert!(matches!(
        good.signer_type(),
        Ok(SignerTypes::Ed25519 { .. })
    ));
    let bad_method = StatementTypes::Follow(KeyToKeyLink {
        key_1: DID::new("web".to_string(), "example.com".to_string()),
        key_2: fixed_did("ccdd"),
    });
    assert!(matches!(
        bad_method.signer_type(),
        Err(SignerError::InvalidId { .. })
    ));
    let bad_id = StatementTypes::Follow(KeyToKeyLink {
        key_1: fixed_did("not hex"),
        key_2: fixed_did("ccdd"),
    });
    assert!(matches!(
        bad_id.signer_type(),
        Err(SignerError::InvalidId { .. })
    ));
}

#[test]
fn statement_operation_response() {
    let req = StatementReq {
        opts: StatementTypes::Dns(dns::Claim {
            domain: "example.com".to_string(),
            prefix: "rebase_sig=".to_string(),
            key_type: fixed_did("aabb"),
        }),
    };
    let res = statement_response(&req).unwrap();
    assert_eq!(res.statement, "example.com is linked to did:key:aabb");
    assert_eq!(res.delimitor, "rebase_sig=");
}

#[test]
fn follow_claim_round_trip() {
    let (key_1, did_1) = new_key();
    let (_key_2, did_2) = new_key();
    let opts = KeyToKeyLink { key_1: did_1, key_2: did_2 };
    let statement = follow::generate_statement(&opts).unwrap();
    let signature = sign(&key_1, &statement);
    let claim = follow::Claim::new(opts, signature.clone()).unwrap();
    assert_eq!(claim.signature, signature);
}

#[test]
fn follow_claim_rejects_wrong_signer() {
    let (_key_1, did_1) = new_key();
    let (key_2, did_2) = new_key();
    let opts = KeyToKeyLink { key_1: did_1, key_2: did_2 };
    let statement = follow::generate_statement(&opts).unwrap();
    // Signed by the followed key, not the follower's: must fail.
    let signature = sign(&key_2, &statement);
    assert!(matches!(
        follow::Claim::new(opts, signature),
        Err(WitnessError::SignatureInvalid(_))
    ));
}

#[test]
fn follow_claim_rejects_altered_text() {
    let (key_1, did_1) = new_key();
    let (_key_2, did_2) = new_key();
    let opts = KeyToKeyLink { key_1: did_1, key_2: did_2 };
    let statement = follow::generate_statement(&opts).unwrap();
    let signature = sign(&key_1, &format!("{}!", statement));
    assert!(matches!(
        follow::Claim::new(opts, signature),
        Err(WitnessError::SignatureInvalid(_))
    ));
}

#[test]
fn follow_claim_rejects_altered_signature() {
    let (key_1, did_1) = new_key();
    let (_key_2, did_2) = new_key();
    let opts = KeyToKeyLink { key_1: did_1, key_2: did_2 };
    let statement = follow::generate_statement(&opts).unwrap();
    let mut signature = sign(&key_1, &statement);
    // Flip the last hex digit.
    let last = signature.pop().unwrap();
    signature.push(if last == '0' { '1' } else { '0' });
    assert!(matches!(
        follow::Claim::new(opts, signature),
        Err(WitnessError::SignatureInvalid(_))
    ));
}

#[test]
fn follow_claim_rejects_unresolvable_signer() {
    let opts = KeyToKeyLink {
        key_1: DID::new("web".to_string(), "example.com".to_string()),
        key_2: fixed_did("bb"),
    };
    assert!(matches!(
        follow::Claim::new(opts, "00".to_string()),
        Err(WitnessError::SignerResolution(_))
    ));
}

#[test]
fn self_signed_claim_needs_both_signatures() {
    let (key_1, did_1) = new_key();
    let (key_2, did_2) = new_key();
    let opts = self_signed::Opts { key_1: did_1, key_2: did_2 };
    let statement = opts.generate_self_signed().unwrap();
    let sig_1 = sign(&key_1, &statement);
    let sig_2 = sign(&key_2, &statement);
    assert!(self_signed::Claim::new(opts.clone(), sig_1.clone(), sig_2.clone()).is_ok());
    // One signature supplied for both keys: must fail.
    assert!(matches!(
        self_signed::Claim::new(opts.clone(), sig_1.clone(), sig_1.clone()),
        Err(WitnessError::SignatureInvalid(_))
    ));
    // The two signatures swapped: must fail.
    assert!(matches!(
        self_signed::Claim::new(opts, sig_2, sig_1),
        Err(WitnessError::SignatureInvalid(_))
    ));
}

#[test]
fn dns_claim_verifies_posted_signature() {
    let (key, did) = new_key();
    let claim = dns::Claim {
        domain: "example.com".to_string(),
        prefix: "rebase_sig=".to_string(),
        key_type: did,
    };
    let statement = claim.generate_statement().unwrap();
    let signature = sign(&key, &statement);
    assert!(claim.verify_signature(&signature).is_ok());
    assert!(matches!(
        claim.verify_signature("00"),
        Err(WitnessError::SignatureInvalid(_))
    ));
}

#[test]
fn dns_credential_subject_carries_domain() {
    let (key, did) = new_key();
    let did_string = did.did().unwrap();
    let claim = dns::Claim {
        domain: "example.com".to_string(),
        prefix: "rebase_sig=".to_string(),
        key_type: did,
    };
    let statement = claim.generate_statement().unwrap();
    let signature = sign(&key, &statement);
    claim.verify_signature(&signature).unwrap();
    let doc = ProofTypes::Dns(claim).build_document().unwrap();
    assert_eq!(doc.types, vec!["VerifiableCredential", "DnsCredential"]);
    match doc.subject {
        SubjectTypes::Dns(s) => {
            assert_eq!(s.domain, "example.com");
            assert_eq!(s.key, did_string);
        }
        _ => panic!("expected a Dns subject"),
    }
    let evidence = doc.evidence.unwrap();
    assert_eq!(evidence.properties[0].0, "statement");
    assert_eq!(evidence.properties[0].1, statement);
}

#[test]
fn follow_credential_document() {
    let (key_1, did_1) = new_key();
    let (_key_2, did_2) = new_key();
    let follower_string = did_1.did().unwrap();
    let following_string = did_2.did().unwrap();
    let opts = KeyToKeyLink { key_1: did_1, key_2: did_2 };
    let statement = follow::generate_statement(&opts).unwrap();
    let signature = sign(&key_1, &statement);
    let claim = follow::Claim::new(opts, signature.clone()).unwrap();
    assert_eq!(
        claim.types().unwrap(),
        vec!["VerifiableCredential", "WitnessFollowCredential"]
    );
    let subject = claim.subject().unwrap();
    assert_eq!(subject.follower, follower_string);
    assert_eq!(subject.following, following_string);
    let evidence = claim.evidence().unwrap().unwrap();
    assert_eq!(evidence.evidence_type, vec!["WitnessFollowEvidence"]);
    assert_eq!(evidence.properties[0], ("statement".to_string(), statement));
    assert_eq!(
        evidence.properties[1],
        ("follower_signature".to_string(), signature)
    );
    let context = claim.context().unwrap();
    assert!(context.starts_with("[\"https://www.w3.org/2018/credentials/v1\""));
}

#[test]
fn follower_schema() {
    let follower = follow::Follower::new(fixed_did("aabb"));
    assert_eq!(
        follower.types().unwrap(),
        vec!["VerifiableCredential", "FollowCredential"]
    );
    let subject = follower.subject().unwrap();
    assert_eq!(subject.subject_type, "Follow");
    assert_eq!(subject.follows, "did:key:aabb");
    assert!(follower.evidence().unwrap().is_none());
}

#[test]
fn client_requires_a_credential_endpoint() {
    let statement = Url::parse("http://localhost:8787/statement").unwrap();
    let jwt = Url::parse("http://localhost:8787/witness").unwrap();
    let ld = Url::parse("http://localhost:8787/ld").unwrap();
    let none = Endpoints { jwt: None, ld: None, statement: statement.clone() };
    assert!(matches!(Client::new(none), Err(ClientError::Config(_))));
    let jwt_only = Endpoints {
        jwt: Some(jwt.clone()),
        ld: None,
        statement: statement.clone(),
    };
    assert!(Client::new(jwt_only).is_ok());
    let ld_only = Endpoints {
        jwt: None,
        ld: Some(ld.clone()),
        statement: statement.clone(),
    };
    assert!(Client::new(ld_only).is_ok());
    let both = Endpoints { jwt: Some(jwt), ld: Some(ld), statement };
    assert!(Client::new(both).is_ok());
}

#[test]
fn client_unconfigured_operations_fail_without_a_request() {
    let statement = Url::parse("http://localhost:8787/statement").unwrap();
    let jwt = Url::parse("http://localhost:8787/witness").unwrap();
    let client = Client::new(Endpoints {
        jwt: Some(jwt.clone()),
        ld: None,
        statement,
    })
    .unwrap();
    assert_eq!(client.jwt_endpoint().unwrap(), &jwt);
    assert!(matches!(client.ld_endpoint(), Err(ClientError::Ld(_))));
}
