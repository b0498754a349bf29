use zktls::{
    utah_voter_template, DisclosureMask, FieldDefinition, FieldType, HttpMethod, TargetServer,
    TemplateRegistry, VerificationTemplate,
};

fn sample_template() -> VerificationTemplate {
    VerificationTemplate {
        id: "utah-voter-v1".to_string(),
        name: "Utah Voter Registration Lookup".to_string(),
        description: "Verifies active voter registration in the state of Utah.".to_string(),
        version: 1,
        target: TargetServer {
            hostname: "votesearch.utah.gov".to_string(),
            path: "/api/search".to_string(),
            method: HttpMethod::Get,
            expected_content_type: "application/json".to_string(),
        },
        fields: vec![
            FieldDefinition {
                name: "status".to_string(),
                json_path: "data.voterStatus".to_string(),
                field_type: FieldType::String,
                required: true,
                validation_pattern: Some("^(Active|Inactive)$".to_string()),
                description: "Voter registration status.".to_string(),
            },
            FieldDefinition {
                name: "county".to_string(),
                json_path: "data.county".to_string(),
                field_type: FieldType::String,
                required: false,
                validation_pattern: None,
                description: "County of registration.".to_string(),
            },
        ],
        default_disclosure: DisclosureMask {
            disclosed_paths: vec!["data.voterStatus".to_string()],
            redacted_paths: vec![
                "data.county".to_string(),
                "data.name".to_string(),
                "data.address".to_string(),
            ],
        },
        claim_type: "voter_registration".to_string(),
    }
}

fn template_with(id: &str, name: &str) -> VerificationTemplate {
    let mut t = sample_template();
    t.id = id.to_string();
    t.name = name.to_string();
    t
}

#[test]
fn registry_register_and_lookup() {
    let mut registry = TemplateRegistry::new();
    registry.register(sample_template());

    assert_eq!(registry.list_ids(), vec!["utah-voter-v1"]);
    let found = registry.get("utah-voter-v1");
    assert!(found.is_some());
    assert_eq!(
        found.expect("template should exist").name,
        "Utah Voter Registration Lookup"
    );
}

#[test]
fn registry_returns_none_for_unknown_id() {
    let registry = TemplateRegistry::new();
    assert!(registry.get("nonexistent").is_none());
}

#[test]
fn http_method_equality() {
    assert_eq!(HttpMethod::Get, HttpMethod::Get);
    assert_eq!(HttpMethod::Post, HttpMethod::Post);
    assert_ne!(HttpMethod::Get, HttpMethod::Post);
}

#[test]
fn registry_lists_ids_in_registration_order() {
    let mut registry = TemplateRegistry::new();
    registry.register(template_with("b-v1", "B"));
    registry.register(template_with("a-v1", "A"));
    registry.register(template_with("c-v2", "C"));
    assert_eq!(registry.list_ids(), vec!["b-v1", "a-v1", "c-v2"]);
    assert_eq!(registry.get("a-v1").unwrap().name, "A");
    assert_eq!(registry.get("c-v2").unwrap().name, "C");
}

#[test]
fn registry_lookup_finds_first_registered_with_id() {
    let mut registry = TemplateRegistry::new();
    registry.register(template_with("dup-v1", "first"));
    registry.register(template_with("dup-v1", "second"));
    assert_eq!(registry.list_ids(), vec!["dup-v1", "dup-v1"]);
    assert_eq!(registry.get("dup-v1").unwrap().name, "first");
}

#[test]
fn registry_lookup_is_exact() {
    let mut registry = TemplateRegistry::new();
    registry.register(sample_template());
    assert!(registry.get("utah-voter").is_none());
    assert!(registry.get("utah-voter-v1 ").is_none());
    assert!(registry.get("").is_none());
}

#[test]
fn default_registry_is_empty() {
    let registry = TemplateRegistry::default();
    assert!(registry.list_ids().is_empty());
}

#[test]
fn utah_template_targets_voter_profile_api() {
    let t = utah_voter_template();
    assert_eq!(t.id, "utah-voter-v1");
    assert_eq!(t.name, "Utah Voter Registration Lookup");
    assert_eq!(t.version, 1);
    assert_eq!(t.target.hostname, "votesearch.utah.gov");
    assert_eq!(t.target.path, "/voter-search/public-api/my-voter-profile");
    assert_eq!(t.target.method, HttpMethod::Post);
    assert_eq!(t.target.expected_content_type, "application/json");
    assert_eq!(t.claim_type, "voter_registration");
    assert!(t.description.starts_with("Verifies active voter registration via votesearch.utah.gov."));
}

#[test]
fn utah_template_fields_and_mask() {
    let t = utah_voter_template();
    let names: Vec<&str> = t.fields.iter().map(|f| f.name.as_str()).collect();
    assert_eq!(names, vec!["status", "state", "errorMessage"]);
    let paths: Vec<&str> = t.fields.iter().map(|f| f.json_path.as_str()).collect();
    assert_eq!(paths, vec!["voter.status", "residence.physicalState", "errorMessage"]);
    assert!(t.fields[0].required && t.fields[1].required && !t.fields[2].required);
    assert_eq!(
        t.fields[0].validation_pattern.as_deref(),
        Some("^(Active|Inactive|Cancelled|Suspended)$")
    );
    assert_eq!(t.fields[1].validation_pattern.as_deref(), Some("^UT$"));
    assert!(t.fields[2].validation_pattern.is_none());
    assert!(t.fields.iter().all(|f| f.field_type == FieldType::String));
    assert_eq!(
        t.default_disclosure.disclosed_paths,
        vec!["voter.status", "residence.physicalState"]
    );
    assert_eq!(t.default_disclosure.redacted_paths.len(), 11);
    assert_eq!(t.default_disclosure.redacted_paths[0], "errorMessage");
    assert_eq!(t.default_disclosure.redacted_paths[1], "voter.first");
    assert_eq!(t.default_disclosure.redacted_paths[10], "precinctId");
    for p in &t.default_disclosure.disclosed_paths {
        assert!(!t.default_disclosure.redacted_paths.contains(p));
    }
}
