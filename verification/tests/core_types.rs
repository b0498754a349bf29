use zktls::time::{MAX_UNIX_SECS, MIN_UNIX_SECS};
use zktls::{
    build_signing_message, sha512_hash, Attestation, CoreError, DisclosureMask, FieldMap,
    JsonValue, NotaryError, SessionProof, Timestamp, VerificationError,
};

fn hex_encode(bytes: &[u8]) -> String {
    hex::encode(bytes)
}

/// The RFC 3339 text that ends a signing message stamped at `t`.
fn stamp_text(t: &Timestamp) -> String {
    let msg = build_signing_message("", &[], &[], t);
    String::from_utf8(msg[3..].to_vec()).unwrap()
}

#[test]
fn sha512_hash_produces_64_bytes() {
    let hash = sha512_hash(b"test input");
    assert_eq!(hash.len(), 64);
}

#[test]
fn sha512_hash_is_deterministic() {
    let hash1 = sha512_hash(b"deterministic");
    let hash2 = sha512_hash(b"deterministic");
    assert_eq!(hash1, hash2);
}

#[test]
fn sha512_hash_differs_for_different_inputs() {
    let hash1 = sha512_hash(b"input one");
    let hash2 = sha512_hash(b"input two");
    assert_ne!(hash1, hash2);
}

#[test]
fn sha512_hash_matches_known_digests() {
    assert_eq!(
        hex_encode(&sha512_hash(b"abc")),
        "ddaf35a193617abacc417349ae20413112e6fa4e89a97ea20a9eeee64b55d39a\
         2192992a274fc1a836ba3c23a3feebbd454d4423643ce80e2a9ac94fa54ca49f"
    );
    assert_eq!(
        hex_encode(&sha512_hash(b"")),
        "cf83e1357eefb8bdf1542850d66d8007d620e4050b5715dc83f4a921d36ce9ce\
         47d0d13c5d85f2b0ff8318d2877eec2f63b931bd47417a81a538327af927da3e"
    );
}

#[test]
fn timestamp_bounds_match_chrono() {
    assert_eq!(chrono::DateTime::<chrono::Utc>::MIN_UTC.timestamp(), MIN_UNIX_SECS);
    assert_eq!(chrono::DateTime::<chrono::Utc>::MAX_UTC.timestamp(), MAX_UNIX_SECS);
}

#[test]
fn timestamp_from_unix_checks_range() {
    assert!(Timestamp::from_unix(0, 0).is_some());
    assert!(Timestamp::from_unix(MAX_UNIX_SECS, 999_999_999).is_some());
    assert!(Timestamp::from_unix(MIN_UNIX_SECS, 0).is_some());
    assert!(Timestamp::from_unix(MAX_UNIX_SECS + 1, 0).is_none());
    assert!(Timestamp::from_unix(MIN_UNIX_SECS - 1, 0).is_none());
    assert!(Timestamp::from_unix(0, 1_000_000_000).is_none());
    let t = Timestamp::from_unix(12, 34).unwrap();
    assert_eq!((t.secs, t.nanos), (12, 34));
}

#[test]
fn timestamp_ordering_and_offsets() {
    let a = Timestamp::from_unix(100, 5).unwrap();
    let b = Timestamp::from_unix(100, 6).unwrap();
    let c = Timestamp::from_unix(101, 0).unwrap();
    assert!(a.is_before(&b));
    assert!(b.is_before(&c));
    assert!(!b.is_before(&a));
    assert!(!a.is_before(&a));
    let later = a.plus_seconds(3600).unwrap();
    assert_eq!((later.secs, later.nanos), (3700, 5));
    let earlier = a.plus_seconds(-3600).unwrap();
    assert_eq!(earlier.secs, -3500);
    assert!(Timestamp::from_unix(MAX_UNIX_SECS, 0).unwrap().plus_seconds(1).is_none());
    assert!(Timestamp::from_unix(MIN_UNIX_SECS, 0).unwrap().plus_seconds(-1).is_none());
}

#[test]
fn timestamp_rfc3339_text() {
    let t = Timestamp::from_unix(1_714_564_800, 0).unwrap();
    assert_eq!(stamp_text(&t), "2024-05-01T12:00:00+00:00");
    let epoch = Timestamp::from_unix(0, 0).unwrap();
    assert_eq!(stamp_text(&epoch), "1970-01-01T00:00:00+00:00");
}

#[test]
fn timestamp_rfc3339_at_the_bounds() {
    let first = Timestamp::from_unix(MIN_UNIX_SECS, 0).unwrap();
    assert!(stamp_text(&first).starts_with("-262143-01-01T00:00:00"));
    let last = Timestamp::from_unix(MAX_UNIX_SECS, 999_999_999).unwrap();
    assert!(stamp_text(&last).starts_with("+262142-12-31T23:59:59.999999999"));
}

#[test]
fn field_map_insert_get_and_replace() {
    let mut m = FieldMap::new();
    assert_eq!(m.len(), 0);
    m.insert("status".to_string(), JsonValue::Str("Active".to_string()));
    m.insert("state".to_string(), JsonValue::Str("UT".to_string()));
    assert_eq!(m.len(), 2);
    assert!(matches!(m.get("status"), Some(JsonValue::Str(s)) if s == "Active"));
    m.insert("status".to_string(), JsonValue::Null);
    assert_eq!(m.len(), 2);
    assert!(matches!(m.get("status"), Some(JsonValue::Null)));
    assert!(m.get("missing").is_none());
    let keys: Vec<&str> = m.entries().iter().map(|e| e.key.as_str()).collect();
    assert_eq!(keys, vec!["status", "state"]);
    let c = m.copy();
    assert_eq!(c.len(), 2);
    assert!(matches!(c.get("state"), Some(JsonValue::Str(s)) if s == "UT"));
}

#[test]
fn copies_keep_every_field() {
    let proof = SessionProof {
        server_hostname: "votesearch.utah.gov".to_string(),
        certificate_hash: sha512_hash(b"cert"),
        transcript_commitment: sha512_hash(b"transcript"),
        notary_signature: vec![0u8; 64],
        notary_public_key: vec![0u8; 32],
        session_timestamp: Timestamp::from_unix(10, 0).unwrap(),
        proof_timestamp: Timestamp::from_unix(11, 0).unwrap(),
    };
    let p = proof.copy();
    assert_eq!(p.server_hostname, "votesearch.utah.gov");
    assert_eq!(p.certificate_hash, proof.certificate_hash);
    assert_eq!(p.transcript_commitment, proof.transcript_commitment);
    assert_eq!(p.session_timestamp, proof.session_timestamp);
    assert_eq!(p.proof_timestamp, proof.proof_timestamp);

    let mut disclosed = FieldMap::new();
    disclosed.insert("state".to_string(), JsonValue::Str("Utah".to_string()));
    let attestation = Attestation {
        id: "att-001".to_string(),
        claim_type: "voter_registration".to_string(),
        session_proof_id: "proof-001".to_string(),
        disclosed_fields: disclosed,
        redacted_field_hashes: vec![sha512_hash(b"name"), sha512_hash(b"address")],
        template_id: "utah-voter-v1".to_string(),
        created_at: Timestamp::from_unix(10, 0).unwrap(),
        expires_at: None,
    };
    let a = attestation.copy();
    assert_eq!(a.claim_type, "voter_registration");
    assert_eq!(a.redacted_field_hashes, attestation.redacted_field_hashes);
    assert_eq!(a.disclosed_fields.len(), 1);
    assert!(a.expires_at.is_none());

    let mask = DisclosureMask {
        disclosed_paths: vec!["voter.status".to_string(), "voter.state".to_string()],
        redacted_paths: vec![
            "voter.name".to_string(),
            "voter.address".to_string(),
            "voter.dob".to_string(),
        ],
    };
    let m = mask.copy();
    assert_eq!(m.disclosed_paths, mask.disclosed_paths);
    assert_eq!(m.redacted_paths, mask.redacted_paths);
}

#[test]
fn core_error_messages() {
    assert_eq!(CoreError::InvalidProof("x".to_string()).message(), "invalid proof structure: x");
    assert_eq!(CoreError::MissingField("f".to_string()).message(), "missing required field: f");
    assert_eq!(
        CoreError::UnknownField("g".to_string()).message(),
        "disclosure mask references unknown field: g"
    );
    assert_eq!(CoreError::Serialization("bad".to_string()).message(), "serialization error: bad");
}

#[test]
fn notary_error_messages() {
    assert_eq!(NotaryError::HostnameNotAllowed("h".to_string()).message(), "hostname not allowed: h");
    assert_eq!(NotaryError::TooManySessions(100).message(), "max concurrent sessions (100) reached");
    assert_eq!(NotaryError::SessionNotFound("s1".to_string()).message(), "session not found: s1");
    assert_eq!(
        NotaryError::WrongState {
            id: "s".to_string(),
            state: "fetching".to_string(),
            expected: "committing".to_string()
        }
        .message(),
        "session s in state fetching, expected committing"
    );
    assert_eq!(NotaryError::FetchFailed("timeout".to_string()).message(), "fetch failed: timeout");
    assert_eq!(
        NotaryError::TargetError { status: 503, body: "busy".to_string() }.message(),
        "target returned HTTP 503: busy"
    );
    assert_eq!(
        NotaryError::ExtractionFailed("e".to_string()).message(),
        "field extraction failed: e"
    );
    assert_eq!(NotaryError::SigningFailed("k".to_string()).message(), "signing failed: k");
    assert_eq!(NotaryError::SessionExpired("s".to_string()).message(), "session s has expired");
    assert_eq!(NotaryError::TemplateNotFound("t".to_string()).message(), "template not found: t");
}

#[test]
fn verification_error_messages() {
    assert_eq!(VerificationError::InvalidSignature.message(), "notary signature verification failed");
    assert_eq!(VerificationError::UntrustedNotary("ab".to_string()).message(), "notary not trusted: ab");
    assert_eq!(VerificationError::TemplateMismatch("m".to_string()).message(), "template mismatch: m");
    assert_eq!(
        VerificationError::DisclosureIntegrityFailed.message(),
        "disclosure integrity check failed"
    );
    assert_eq!(
        VerificationError::Expired("2024-01-01T00:00:00+00:00".to_string()).message(),
        "attestation expired at 2024-01-01T00:00:00+00:00"
    );
    assert_eq!(
        VerificationError::MissingRequiredField("status".to_string()).message(),
        "required field missing: status"
    );
    assert_eq!(
        VerificationError::FieldPatternMismatch {
            field: "state".to_string(),
            value: "CA".to_string(),
            pattern: "^UT$".to_string()
        }
        .message(),
        "field 'state' value 'CA' does not match pattern '^UT$'"
    );
    assert_eq!(
        VerificationError::InvalidPublicKey("expected 32 bytes".to_string()).message(),
        "invalid public key: expected 32 bytes"
    );
}
