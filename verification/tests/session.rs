use zktls::json::{navigate_json_path, parse_json};
use zktls::session::{generate_proof_at, SessionStore};
use zktls::time::Timestamp;
use zktls::{
    build_signing_message, extract_fields, generate_proof, sha512_hash,
    Attestation, DisclosureMask, FieldDefinition, FieldMap, FieldType, JsonValue,
    NotaryError, NotaryKeyPair, SessionProof, SessionState,
};

fn parse_body(text: &str) -> JsonValue {
    zktls::json::parse_json(text).expect("valid JSON")
}

fn field(name: &str, path: &str, required: bool, description: &str) -> FieldDefinition {
    FieldDefinition {
        name: name.to_string(),
        json_path: path.to_string(),
        field_type: FieldType::String,
        required,
        validation_pattern: None,
        description: description.to_string(),
    }
}

fn dummy_proof() -> SessionProof {
    SessionProof {
        server_hostname: "example.com".to_string(),
        certificate_hash: vec![0u8; 64],
        transcript_commitment: vec![0u8; 64],
        notary_signature: vec![0u8; 64],
        notary_public_key: vec![0u8; 32],
        session_timestamp: Timestamp::from_unix(0, 0).unwrap(),
        proof_timestamp: Timestamp::from_unix(0, 0).unwrap(),
    }
}

fn dummy_attestation() -> Attestation {
    Attestation {
        id: "att-1".to_string(),
        claim_type: "test".to_string(),
        session_proof_id: "p-1".to_string(),
        disclosed_fields: FieldMap::new(),
        redacted_field_hashes: vec![],
        template_id: "t-1".to_string(),
        created_at: Timestamp::from_unix(0, 0).unwrap(),
        expires_at: None,
    }
}

#[test]
fn session_store_create_and_get() {
    let mut store = SessionStore::new(10);
    let id = store
        .create("example.com".to_string(), "test-v1".to_string())
        .unwrap();

    let session = store.get(&id).unwrap();
    assert_eq!(session.target_hostname, "example.com");
    assert_eq!(session.state, SessionState::Initialized);
}

#[test]
fn session_store_respects_capacity() {
    let mut store = SessionStore::new(2);
    store.create("a.com".to_string(), "t".to_string()).unwrap();
    store.create("b.com".to_string(), "t".to_string()).unwrap();

    // Third should fail (all active)
    let result = store.create("c.com".to_string(), "t".to_string());
    assert!(result.is_err());
}

#[test]
fn session_store_evicts_completed() {
    let mut store = SessionStore::new(2);
    let id1 = store.create("a.com".to_string(), "t".to_string()).unwrap();
    store.create("b.com".to_string(), "t".to_string()).unwrap();

    // Mark first as completed
    store.update_state(&id1, SessionState::Completed).unwrap();

    // Third should succeed now (evicted completed session)
    let result = store.create("c.com".to_string(), "t".to_string());
    assert!(result.is_ok());
}

#[test]
fn session_store_full_error_names_capacity() {
    let mut store = SessionStore::new(1);
    store.create("a.com".to_string(), "t".to_string()).unwrap();
    match store.create("b.com".to_string(), "t".to_string()) {
        Err(e) => {
            assert!(matches!(e, NotaryError::TooManySessions(1)));
            assert_eq!(e.message(), "max concurrent sessions (1) reached");
        },
        Ok(_) => panic!("store should be full"),
    }
    assert_eq!(store.active_count(), 1);
}

#[test]
fn session_store_with_no_capacity_refuses() {
    let mut store = SessionStore::new(0);
    assert!(matches!(
        store.create("a.com".to_string(), "t".to_string()),
        Err(NotaryError::TooManySessions(0))
    ));
}

#[test]
fn session_store_eviction_keeps_live_sessions() {
    let mut store = SessionStore::new(3);
    let a = store.create("a.com".to_string(), "t".to_string()).unwrap();
    let b = store.create("b.com".to_string(), "t".to_string()).unwrap();
    let c = store.create("c.com".to_string(), "t".to_string()).unwrap();
    store.update_state(&a, SessionState::Failed("timeout".to_string())).unwrap();
    store.update_state(&c, SessionState::Completed).unwrap();
    assert_eq!(store.active_count(), 1);
    let d = store.create("d.com".to_string(), "t".to_string()).unwrap();
    // Both finished sessions were evicted; the live one stays.
    assert!(matches!(store.get(&a), Err(NotaryError::SessionNotFound(_))));
    assert!(matches!(store.get(&c), Err(NotaryError::SessionNotFound(_))));
    assert_eq!(store.get(&b).unwrap().target_hostname, "b.com");
    assert_eq!(store.get(&d).unwrap().state, SessionState::Initialized);
    assert_eq!(store.active_count(), 2);
}

#[test]
fn session_store_below_capacity_keeps_finished_sessions() {
    let mut store = SessionStore::new(3);
    let a = store.create("a.com".to_string(), "t".to_string()).unwrap();
    store.update_state(&a, SessionState::Completed).unwrap();
    store.create("b.com".to_string(), "t".to_string()).unwrap();
    assert_eq!(store.get(&a).unwrap().state, SessionState::Completed);
    assert_eq!(store.active_count(), 1);
}

#[test]
fn session_store_unknown_id_errors() {
    let mut store = SessionStore::new(2);
    let err = store.get("nope").unwrap_err();
    assert_eq!(err.message(), "session not found: nope");
    assert!(matches!(
        store.update_state("nope", SessionState::Fetching),
        Err(NotaryError::SessionNotFound(id)) if id == "nope"
    ));
    assert!(store.store_response("nope", "body".to_string(), vec![1]).is_err());
    assert!(store.store_proof("nope", dummy_proof(), dummy_attestation()).is_err());
}

#[test]
fn session_store_records_response_then_proof() {
    let mut store = SessionStore::new(4);
    let id = store.create("example.com".to_string(), "t-1".to_string()).unwrap();
    store.update_state(&id, SessionState::Fetching).unwrap();
    assert_eq!(store.get(&id).unwrap().state, SessionState::Fetching);
    store.store_response(&id, "{\"a\":1}".to_string(), vec![9u8; 64]).unwrap();
    let s = store.get(&id).unwrap();
    assert_eq!(s.response_body.as_deref(), Some("{\"a\":1}"));
    assert_eq!(s.certificate_hash, Some(vec![9u8; 64]));
    assert_eq!(s.state, SessionState::Fetching);
    store.store_proof(&id, dummy_proof(), dummy_attestation()).unwrap();
    let s = store.get(&id).unwrap();
    assert!(s.response_body.is_none());
    assert_eq!(s.certificate_hash, Some(vec![9u8; 64]));
    assert_eq!(s.state, SessionState::Completed);
    assert_eq!(s.proof.unwrap().server_hostname, "example.com");
    assert_eq!(s.attestation.unwrap().id, "att-1");
    assert_eq!(s.template_id, "t-1");
    assert_eq!(store.active_count(), 0);
}

#[test]
fn session_state_texts() {
    assert_eq!(SessionState::Initialized.text(), "initialized");
    assert_eq!(SessionState::Fetching.text(), "fetching");
    assert_eq!(SessionState::Committing.text(), "committing");
    assert_eq!(SessionState::Completed.text(), "completed");
    assert_eq!(SessionState::Failed("timeout".to_string()).text(), "failed: timeout");
    assert!(SessionState::Completed.is_finished());
    assert!(SessionState::Failed(String::new()).is_finished());
    assert!(!SessionState::Committing.is_finished());
}

#[test]
fn generate_proof_produces_valid_structure() {
    let kp = NotaryKeyPair::generate();
    let body = r#"{"voter": {"status": "Active"}}"#;
    let cert_hash = sha512_hash(b"test-cert");

    let proof = generate_proof("example.com", body, &cert_hash, &kp);

    assert_eq!(proof.server_hostname, "example.com");
    assert_eq!(proof.certificate_hash, cert_hash);
    assert_eq!(proof.transcript_commitment.len(), 64);
    assert_eq!(proof.notary_signature.len(), 64);
    assert_eq!(proof.notary_public_key.len(), 32);
}

#[test]
fn generate_proof_signature_is_verifiable() {
    let kp = NotaryKeyPair::generate();
    let body = r#"{"data": "test"}"#;
    let cert_hash = sha512_hash(b"cert");

    let proof = generate_proof("example.com", body, &cert_hash, &kp);

    // Reconstruct the signing message and verify
    let signing_msg = build_signing_message(
        &proof.server_hostname,
        &proof.certificate_hash,
        &proof.transcript_commitment,
        &proof.session_timestamp,
    );

    let sig = ed25519_dalek::Signature::from_bytes(
        proof.notary_signature.as_slice().try_into().unwrap(),
    );
    let vk = kp.verifying_key();
    assert!(ed25519_dalek::Verifier::verify(&vk, &signing_msg, &sig).is_ok());
}

#[test]
fn signing_message_layout() {
    let at = Timestamp::from_unix(1_714_564_800, 0).unwrap();
    let msg = build_signing_message("h.io", &[1, 2], &[3], &at);
    let mut expected = b"h.io".to_vec();
    expected.push(0);
    expected.extend_from_slice(&[1, 2]);
    expected.push(0);
    expected.push(3);
    expected.push(0);
    expected.extend_from_slice(b"2024-05-01T12:00:00+00:00");
    assert_eq!(msg, expected);
}

#[test]
fn generated_proof_commits_to_body_at_given_time() {
    let kp = NotaryKeyPair::generate();
    let at = Timestamp::from_unix(1_700_000_000, 42).unwrap();
    let body = "{\"x\":true}";
    let proof = generate_proof_at("example.com", body, &[5u8; 64], &kp, &at);
    assert_eq!(proof.transcript_commitment, sha512_hash(body.as_bytes()));
    assert_eq!(proof.session_timestamp, at);
    assert_eq!(proof.proof_timestamp, at);
    assert_eq!(proof.notary_public_key, kp.public_key_bytes());
    let msg = build_signing_message("example.com", &[5u8; 64], &proof.transcript_commitment, &at);
    assert_eq!(proof.notary_signature, kp.sign(&msg));
}

#[test]
fn extract_fields_disclosed_and_redacted() {
    let body = r#"{
        "voter": {
            "status": "Active",
            "first": "John",
            "last": "Doe"
        },
        "residence": {
            "physicalState": "UT"
        }
    }"#;

    let fields = vec![
        field("status", "voter.status", true, "Status"),
        field("state", "residence.physicalState", true, "State"),
        field("firstName", "voter.first", false, "First name"),
    ];

    let disclosure = DisclosureMask {
        disclosed_paths: vec![
            "voter.status".to_string(),
            "residence.physicalState".to_string(),
        ],
        redacted_paths: vec!["voter.first".to_string()],
    };

    let (disclosed, redacted) = extract_fields(body, &fields, &disclosure).unwrap();

    assert_eq!(disclosed.len(), 2);
    assert!(matches!(disclosed.get("status"), Some(JsonValue::Str(s)) if s == "Active"));
    assert!(matches!(disclosed.get("state"), Some(JsonValue::Str(s)) if s == "UT"));
    assert_eq!(redacted.len(), 1);
    assert_eq!(redacted[0].len(), 64); // SHA-512
}

#[test]
fn extract_fields_missing_required() {
    let body = r#"{"other": "data"}"#;

    let fields = vec![field("status", "voter.status", true, "Status")];

    let disclosure = DisclosureMask {
        disclosed_paths: vec!["voter.status".to_string()],
        redacted_paths: vec![],
    };

    let result = extract_fields(body, &fields, &disclosure);
    assert!(result.is_err());
}

#[test]
fn navigate_json_path_works() {
    let json: JsonValue = parse_json(r#"{"a": {"b": {"c": 42}}}"#).unwrap();

    assert!(matches!(navigate_json_path(&json, "a.b.c"), Some(JsonValue::Number(n)) if n == "42"));
    assert!(navigate_json_path(&json, "a.b.d").is_none());
    assert!(navigate_json_path(&json, "x.y").is_none());
}

#[test]
fn navigate_json_path_edge_cases() {
    let json = parse_body(r#"{"a": {"": 1, "b": [1, 2]}, "s": "text"}"#);
    // An object member named by the empty segment.
    assert!(matches!(navigate_json_path(&json, "a."), Some(JsonValue::Number(n)) if n == "1"));
    assert!(matches!(navigate_json_path(&json, "a.b"), Some(JsonValue::Array(v)) if v.len() == 2));
    // Segments only enter objects.
    assert!(navigate_json_path(&json, "a.b.0").is_none());
    assert!(navigate_json_path(&json, "s.x").is_none());
    assert!(navigate_json_path(&json, "").is_none());
}

#[test]
fn extraction_error_texts() {
    let fields = vec![field("status", "voter.status", true, "Status")];
    let disclosure = DisclosureMask {
        disclosed_paths: vec!["voter.status".to_string()],
        redacted_paths: vec![],
    };
    let missing = extract_fields("{}", &fields, &disclosure).unwrap_err();
    assert_eq!(
        missing.message(),
        "field extraction failed: required field 'status' not found at path 'voter.status'"
    );
    let invalid = extract_fields("not json", &fields, &disclosure).unwrap_err();
    let parser_text = serde_json::from_str::<serde_json::Value>("not json").unwrap_err().to_string();
    assert_eq!(invalid.message(), format!("field extraction failed: invalid JSON: {parser_text}"));
}

#[test]
fn extraction_optional_absent_is_null_and_unmasked_ignored() {
    let fields = vec![
        field("status", "voter.status", false, "Status"),
        field("party", "voter.party", false, "Party"),
        field("zip", "residence.zip", false, "Zip"),
    ];
    let disclosure = DisclosureMask {
        disclosed_paths: vec!["voter.status".to_string()],
        redacted_paths: vec!["residence.zip".to_string()],
    };
    let body = r#"{"voter": {"party": "X"}}"#;
    let (disclosed, redacted) = extract_fields(body, &fields, &disclosure).unwrap();
    assert_eq!(disclosed.len(), 1);
    assert!(matches!(disclosed.get("status"), Some(JsonValue::Null)));
    // The party field is neither disclosed nor redacted; the zip is absent.
    assert!(disclosed.get("party").is_none());
    assert!(redacted.is_empty());
}

#[test]
fn redaction_hash_covers_path_and_compact_value() {
    let fields = vec![field("first", "voter.first", false, "First")];
    let disclosure = DisclosureMask { disclosed_paths: vec![], redacted_paths: vec!["voter.first".to_string()] };
    let (_, redacted) =
        extract_fields(r#"{"voter": {"first": "Jo\"hn"}}"#, &fields, &disclosure).unwrap();
    assert_eq!(redacted, vec![sha512_hash(b"voter.first:\"Jo\\\"hn\"")]);

    let fields = vec![field("addr", "residence", false, "Address")];
    let disclosure = DisclosureMask { disclosed_paths: vec![], redacted_paths: vec!["residence".to_string()] };
    let body = r#"{"residence": {"zip": 84101, "city": "Salt Lake", "tags": [true, null]}}"#;
    let (_, redacted) = extract_fields(body, &fields, &disclosure).unwrap();
    // The object is written compactly, members in the parser's (sorted) order.
    assert_eq!(
        hex::encode(&redacted[0]),
        hex::encode(&sha512_hash(
            b"residence:{\"city\":\"Salt Lake\",\"tags\":[true,null],\"zip\":84101}"
        ))
    );
    // Same as the text serde_json writes for the value.
    let value: serde_json::Value = serde_json::from_str(body).unwrap();
    let text = format!("residence:{}", value["residence"]);
    assert_eq!(redacted[0], sha512_hash(text.as_bytes()));
}

#[test]
fn redaction_escapes_control_characters_like_serde_json() {
    let fields = vec![field("note", "note", false, "Note")];
    let disclosure = DisclosureMask { disclosed_paths: vec![], redacted_paths: vec!["note".to_string()] };
    let body = "{\"note\": \"tab\\there\\u0001\\n\\\\ \\/ é\"}";
    let (_, redacted) = extract_fields(body, &fields, &disclosure).unwrap();
    let value: serde_json::Value = serde_json::from_str(body).unwrap();
    let text = format!("note:{}", value["note"]);
    assert_eq!(redacted[0], sha512_hash(text.as_bytes()));
}

#[test]
fn missing_required_field_fails_whatever_the_mask() {
    let fields = vec![field("first", "voter.first", true, "First")];
    let redacting = DisclosureMask { disclosed_paths: vec![], redacted_paths: vec!["voter.first".to_string()] };
    let err = extract_fields(r#"{"voter": {}}"#, &fields, &redacting).unwrap_err();
    assert_eq!(
        err.message(),
        "field extraction failed: required field 'first' not found at path 'voter.first'"
    );
    let neither = DisclosureMask { disclosed_paths: vec![], redacted_paths: vec![] };
    assert!(extract_fields(r#"{"voter": {}}"#, &fields, &neither).is_err());
    // Present, it is redacted or ignored as before.
    let (d, h) = extract_fields(r#"{"voter": {"first": "Al"}}"#, &fields, &redacting).unwrap();
    assert_eq!(d.len(), 0);
    assert_eq!(h, vec![sha512_hash(b"voter.first:\"Al\"")]);
    assert!(extract_fields(r#"{"voter": {"first": "Al"}}"#, &fields, &neither).is_ok());
}

#[test]
fn parse_json_keeps_numbers_and_reports_errors() {
    let v = parse_json(r#"[1, -2.5, 1e3, {"b": true, "a": null}]"#).unwrap();
    match v {
        JsonValue::Array(items) => {
            assert!(matches!(&items[0], JsonValue::Number(n) if n == "1"));
            assert!(matches!(&items[1], JsonValue::Number(n) if n == "-2.5"));
            assert!(matches!(&items[2], JsonValue::Number(n) if n == "1000.0"));
            match &items[3] {
                JsonValue::Object(members) => {
                    let keys: Vec<&str> = members.iter().map(|m| m.key.as_str()).collect();
                    assert_eq!(keys, vec!["a", "b"]);
                },
                other => panic!("unexpected {:?}", other),
            }
        },
        other => panic!("unexpected {:?}", other),
    }
    let err = parse_json("{").unwrap_err();
    assert_eq!(err, serde_json::from_str::<serde_json::Value>("{").unwrap_err().to_string());
}
