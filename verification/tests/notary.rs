use zktls::notary::{
    begin_notarization, browser_user_agent, certificate_stand_in, client_hints,
    complete_notarization, conclude_notarization, jitter_ms, notary_info, refusal_message,
    request_origin, request_referer, select_template, session_lookup, session_unavailable,
    target_status_ok, target_url, FetchOutcome, ATTESTATION_LIFETIME_SECS,
};
use zktls::session::SessionStore;
use zktls::time::Timestamp;
use zktls::{
    generate_proof, sha512_hash, utah_voter_template, DisclosureMask, Ed25519Verifier,
    JsonValue, NotaryConfig, NotaryError, NotaryKeyPair, SessionState,
    TemplateRegistry, TrustedNotary, Verify,
};

fn delivered(body: &str) -> FetchOutcome {
    FetchOutcome::Delivered { body: body.to_string() }
}

fn registry() -> TemplateRegistry {
    let mut r = TemplateRegistry::new();
    r.register(utah_voter_template());
    r
}

const VOTER_BODY: &str = r#"{
    "voter": {"status": "Active", "first": "John", "last": "Doe", "party": "X"},
    "residence": {"physicalState": "UT", "physicalCity": "Provo"},
    "errorMessage": null
}"#;

#[test]
fn info_endpoint() {
    let kp = NotaryKeyPair::generate();
    let templates = TemplateRegistry::new();
    let info = notary_info(&kp, &templates, 0);
    assert_eq!(info.public_key.len(), 64); // 32 bytes hex
    assert_eq!(info.name, "PlausiDen zkTLS Notary");
    assert!(info.templates.is_empty());
    assert_eq!(info.active_sessions, 0);
}

#[test]
fn notary_info_lists_templates_and_key() {
    let kp = NotaryKeyPair::generate();
    let info = notary_info(&kp, &registry(), 3);
    assert_eq!(info.public_key, hex::encode(&kp.public_key_bytes()));
    assert_eq!(info.templates, vec!["utah-voter-v1".to_string()]);
    assert_eq!(info.active_sessions, 3);
}

#[test]
fn notarize_unknown_template_returns_404() {
    let templates = TemplateRegistry::new();
    let mut store = SessionStore::new(100);
    let err = begin_notarization(&mut store, &templates, &vec![], "nonexistent-v1").unwrap_err();
    assert_eq!(err.status, 404);
    assert_eq!(err.body.error, "template not found: nonexistent-v1");
    assert_eq!(store.active_count(), 0);
}

#[test]
fn hostname_allowlist_is_enforced() {
    let templates = registry();
    let allowed = vec!["example.com".to_string()];
    let err = select_template(&templates, &allowed, "utah-voter-v1").unwrap_err();
    assert_eq!(err.status, 403);
    assert_eq!(err.body.error, "hostname not allowed: votesearch.utah.gov");
    let allowed = vec!["example.com".to_string(), "votesearch.utah.gov".to_string()];
    assert_eq!(select_template(&templates, &allowed, "utah-voter-v1").unwrap().id, "utah-voter-v1");
    // An empty allowlist allows every host.
    assert_eq!(select_template(&templates, &vec![], "utah-voter-v1").unwrap().id, "utah-voter-v1");
}

#[test]
fn begin_creates_fetching_session() {
    let templates = registry();
    let mut store = SessionStore::new(2);
    let (template, id) = begin_notarization(&mut store, &templates, &vec![], "utah-voter-v1").unwrap();
    assert_eq!(template.id, "utah-voter-v1");
    let s = store.get(&id).unwrap();
    assert_eq!(s.state, SessionState::Fetching);
    assert_eq!(s.target_hostname, "votesearch.utah.gov");
    assert_eq!(s.template_id, "utah-voter-v1");
    assert_eq!(id.len(), 36); // hyphenated UUID
    let chars: Vec<char> = id.chars().collect();
    for (i, c) in chars.iter().enumerate() {
        if [8, 13, 18, 23].contains(&i) {
            assert_eq!(*c, '-');
        } else {
            assert!(c.is_ascii_hexdigit() && !c.is_ascii_uppercase());
        }
    }
    assert_eq!(chars[14], '4');
    assert!(['8', '9', 'a', 'b'].contains(&chars[19]));
}

#[test]
fn begin_refuses_when_store_is_full() {
    let templates = registry();
    let mut store = SessionStore::new(1);
    begin_notarization(&mut store, &templates, &vec![], "utah-voter-v1").unwrap();
    let err = begin_notarization(&mut store, &templates, &vec![], "utah-voter-v1").unwrap_err();
    assert_eq!(err.status, 503);
    assert_eq!(err.body.error, "max concurrent sessions (1) reached");
    let unavailable = session_unavailable(&NotaryError::TooManySessions(7));
    assert_eq!(unavailable.status, 503);
    assert_eq!(unavailable.body.error, "max concurrent sessions (7) reached");
}

#[test]
fn conclude_success_completes_session() {
    let templates = registry();
    let kp = NotaryKeyPair::generate();
    let mut store = SessionStore::new(4);
    let (template, id) = begin_notarization(&mut store, &templates, &vec![], "utah-voter-v1").unwrap();
    let resp = conclude_notarization(&mut store, template, None, &id, delivered(VOTER_BODY), &kp)
        .unwrap();
    assert_eq!(resp.session_id, id);
    assert_eq!(resp.proof.server_hostname, "votesearch.utah.gov");
    assert_eq!(resp.proof.transcript_commitment, sha512_hash(VOTER_BODY.as_bytes()));
    assert_eq!(resp.proof.certificate_hash, sha512_hash(b"tls-cert:votesearch.utah.gov"));
    let a = &resp.attestation;
    assert!(a.id.starts_with("att-"));
    assert_eq!(a.id.len(), 40);
    assert_eq!(a.claim_type, "voter_registration");
    assert_eq!(a.session_proof_id, id);
    assert_eq!(a.template_id, "utah-voter-v1");
    assert_eq!(a.disclosed_fields.len(), 2);
    assert!(matches!(a.disclosed_fields.get("status"), Some(JsonValue::Str(s)) if s == "Active"));
    assert!(matches!(a.disclosed_fields.get("state"), Some(JsonValue::Str(s)) if s == "UT"));
    assert!(a.disclosed_fields.get("errorMessage").is_none());
    assert_eq!(a.redacted_field_hashes, vec![sha512_hash(b"errorMessage:null")]);
    let expires = a.expires_at.unwrap();
    assert_eq!(expires.secs, a.created_at.secs + ATTESTATION_LIFETIME_SECS);
    assert_eq!(ATTESTATION_LIFETIME_SECS, 30 * 24 * 3600);

    let s = store.get(&id).unwrap();
    assert_eq!(s.state, SessionState::Completed);
    assert!(s.response_body.is_none());
    assert_eq!(s.certificate_hash, Some(sha512_hash(b"tls-cert:votesearch.utah.gov")));
    assert_eq!(s.proof.unwrap().notary_signature, resp.proof.notary_signature);
    assert_eq!(s.attestation.unwrap().id, a.id);
    assert_eq!(s.template_id, "utah-voter-v1");
    assert_eq!(s.target_hostname, "votesearch.utah.gov");

    // A relying party that trusts the notary accepts the result.
    let mut verifier = Ed25519Verifier::new(vec![TrustedNotary {
        name: "PlausiDen".to_string(),
        public_key: kp.public_key_bytes(),
        endpoint: None,
    }]);
    verifier.add_template(utah_voter_template());
    let result = verifier.verify_attestation(&resp.attestation, &resp.proof).unwrap();
    assert!(result.valid);
    assert_eq!(result.verified_fields.len(), 2);
}

#[test]
fn conclude_with_custom_mask_redacts() {
    let templates = registry();
    let kp = NotaryKeyPair::generate();
    let mut store = SessionStore::new(4);
    let (template, id) = begin_notarization(&mut store, &templates, &vec![], "utah-voter-v1").unwrap();
    let mask = DisclosureMask {
        disclosed_paths: vec!["voter.status".to_string()],
        redacted_paths: vec!["residence.physicalState".to_string()],
    };
    let resp =
        conclude_notarization(&mut store, template, Some(mask), &id, delivered(VOTER_BODY), &kp)
            .unwrap();
    assert_eq!(resp.attestation.disclosed_fields.len(), 1);
    assert_eq!(
        resp.attestation.redacted_field_hashes,
        vec![sha512_hash(b"residence.physicalState:\"UT\"")]
    );
}

#[test]
fn conclude_fetch_failure_fails_session() {
    let templates = registry();
    let kp = NotaryKeyPair::generate();
    let mut store = SessionStore::new(4);
    let (template, id) = begin_notarization(&mut store, &templates, &vec![], "utah-voter-v1").unwrap();
    let err = conclude_notarization(
        &mut store,
        template,
        None,
        &id,
        FetchOutcome::Unreachable("connection refused".to_string()),
        &kp,
    )
    .unwrap_err();
    assert_eq!(err.status, 502);
    assert_eq!(err.body.error, "fetch failed: connection refused");
    assert_eq!(
        store.get(&id).unwrap().state,
        SessionState::Failed("fetch failed: connection refused".to_string())
    );
    assert_eq!(store.active_count(), 0);
}

#[test]
fn conclude_refused_status_fails_session() {
    let templates = registry();
    let kp = NotaryKeyPair::generate();
    let mut store = SessionStore::new(4);
    let (template, id) = begin_notarization(&mut store, &templates, &vec![], "utah-voter-v1").unwrap();
    let refused = FetchOutcome::Refused {
        status: 404,
        url: "https://votesearch.utah.gov/x".to_string(),
        body_bytes: 12,
    };
    let err = conclude_notarization(&mut store, template, None, &id, refused, &kp).unwrap_err();
    let text = "target returned HTTP 404 for template=utah-voter-v1 url=https://votesearch.utah.gov/x body_bytes=12";
    assert_eq!(err.status, 502);
    assert_eq!(err.body.error, text);
    assert_eq!(store.get(&id).unwrap().state, SessionState::Failed(text.to_string()));
}

#[test]
fn conclude_unreadable_body_leaves_session() {
    let templates = registry();
    let kp = NotaryKeyPair::generate();
    let mut store = SessionStore::new(4);
    let (template, id) = begin_notarization(&mut store, &templates, &vec![], "utah-voter-v1").unwrap();
    let err = conclude_notarization(
        &mut store,
        template,
        None,
        &id,
        FetchOutcome::Unreadable("decode error".to_string()),
        &kp,
    )
    .unwrap_err();
    assert_eq!(err.status, 502);
    assert_eq!(err.body.error, "failed to read response body: decode error");
    assert_eq!(store.get(&id).unwrap().state, SessionState::Fetching);
}

#[test]
fn conclude_extraction_failure_is_422_and_session_committing() {
    let templates = registry();
    let kp = NotaryKeyPair::generate();
    let mut store = SessionStore::new(4);
    let (template, id) = begin_notarization(&mut store, &templates, &vec![], "utah-voter-v1").unwrap();
    let body = r#"{"voter": {}}"#;
    let err = conclude_notarization(&mut store, template, None, &id, delivered(body), &kp).unwrap_err();
    assert_eq!(err.status, 422);
    assert_eq!(
        err.body.error,
        "field extraction failed: required field 'status' not found at path 'voter.status'"
    );
    let s = store.get(&id).unwrap();
    assert_eq!(s.state, SessionState::Committing);
    assert_eq!(s.response_body.as_deref(), Some(body));

    let (template, id2) = begin_notarization(&mut store, &templates, &vec![], "utah-voter-v1").unwrap();
    let err = conclude_notarization(&mut store, template, None, &id2, delivered("not json"), &kp)
        .unwrap_err();
    assert_eq!(err.status, 422);
    assert!(err.body.error.starts_with("field extraction failed: invalid JSON: "));
}

#[test]
fn complete_notarization_at_given_times() {
    let template = utah_voter_template();
    let kp = NotaryKeyPair::generate();
    let at = Timestamp::from_unix(1_714_564_800, 0).unwrap();
    let (proof, attestation) =
        complete_notarization(&template, None, VOTER_BODY, &kp, "sess-1", &at, "abc", &at).unwrap();
    let expected = generate_proof("votesearch.utah.gov", VOTER_BODY, &certificate_stand_in("votesearch.utah.gov"), &kp);
    assert_eq!(proof.transcript_commitment, expected.transcript_commitment);
    assert_eq!(proof.session_timestamp, at);
    assert_eq!(attestation.id, "att-abc");
    assert_eq!(attestation.session_proof_id, "sess-1");
    assert_eq!(attestation.created_at, at);
    assert_eq!(attestation.expires_at, Some(Timestamp::from_unix(1_717_156_800, 0).unwrap()));

    // Thirty days past the last representable time cannot be stamped.
    let last = Timestamp::from_unix(zktls::time::MAX_UNIX_SECS, 0).unwrap();
    let err = complete_notarization(&template, None, VOTER_BODY, &kp, "s", &at, "x", &last)
        .unwrap_err();
    assert_eq!(err.status, 500);
    assert_eq!(err.body.error, "attestation expiry out of range");
}

#[test]
fn session_lookup_answers_404_for_unknown() {
    let mut store = SessionStore::new(2);
    let id = store.create("a.com".to_string(), "t".to_string()).unwrap();
    assert_eq!(session_lookup(&store, &id).unwrap().target_hostname, "a.com");
    let err = session_lookup(&store, "missing").unwrap_err();
    assert_eq!(err.status, 404);
    assert_eq!(err.body.error, "session not found: missing");
}

#[test]
fn request_details() {
    assert_eq!(
        target_url("votesearch.utah.gov", "/voter-search/public-api/my-voter-profile"),
        "https://votesearch.utah.gov/voter-search/public-api/my-voter-profile"
    );
    assert_eq!(request_origin("votesearch.utah.gov"), "https://votesearch.utah.gov");
    assert_eq!(request_referer("votesearch.utah.gov"), "https://votesearch.utah.gov/");
    assert_eq!(certificate_stand_in("h.io"), sha512_hash(b"tls-cert:h.io"));
    assert!(target_status_ok(200) && target_status_ok(204) && target_status_ok(299));
    assert!(!target_status_ok(199) && !target_status_ok(300) && !target_status_ok(404));
    assert_eq!(
        refusal_message(500, "t", "https://x/y", 0),
        "target returned HTTP 500 for template=t url=https://x/y body_bytes=0"
    );
}

#[test]
fn jitter_is_between_one_and_five_seconds() {
    assert_eq!(jitter_ms(0), 1000);
    assert_eq!(jitter_ms(3999), 4999);
    assert_eq!(jitter_ms(4000), 1000);
    assert_eq!(jitter_ms(u64::MAX), u64::MAX % 4000 + 1000);
}

#[test]
fn user_agents_rotate_and_hints_match() {
    let uas: Vec<&str> = (0..6).map(browser_user_agent).collect();
    assert_eq!(uas[0], uas[5]);
    assert!(uas[0].contains("Windows NT 10.0") && uas[0].contains("Chrome/131"));
    assert!(uas[2].contains("Firefox/133.0"));
    assert!(uas[3].contains("Version/18.2 Safari"));
    assert!(uas[4].contains("X11; Linux"));
    let chrome = "\"Chromium\";v=\"131\", \"Not_A Brand\";v=\"24\", \"Google Chrome\";v=\"131\"";
    assert_eq!(client_hints(uas[0]), (chrome, "\"Windows\""));
    assert_eq!(client_hints(uas[1]), (chrome, "\"macOS\""));
    assert_eq!(client_hints(uas[2]), ("\"Firefox\";v=\"133\"", "\"Windows\""));
    assert_eq!(client_hints(uas[3]), ("\"Safari\";v=\"18\"", "\"macOS\""));
    assert_eq!(client_hints(uas[4]), (chrome, "\"Linux\""));
    assert_eq!(client_hints("Mozilla/5.0 (X11; Linux) Firefox/133.0"), ("\"Firefox\";v=\"133\"", "\"Linux\""));
}

#[test]
fn default_config() {
    let c = NotaryConfig::default();
    assert_eq!(c.max_concurrent_sessions, 100);
    assert_eq!(c.session_timeout_secs, 300);
    assert!(c.allowed_hostnames.is_empty());
    assert_eq!(c.listen_addr, "127.0.0.1:7443");
}
