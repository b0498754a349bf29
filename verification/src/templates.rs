//! Template definitions for zkTLS verification targets.
//!
//! A template describes how to interact with a verification target (for
//! example a state voter registration lookup) and which fields of its JSON
//! response can be extracted, disclosed or redacted.

use vstd::prelude::*;

use crate::types::{string_views, DisclosureMask};

verus! {

/// A verification template: how to notarize one web interaction and extract
/// structured claims from it.
#[derive(Debug)]
pub struct VerificationTemplate {
    /// Unique identifier for this template (e.g. "utah-voter-v1").
    pub id: String,
    /// Human-readable name.
    pub name: String,
    /// Description of what this template verifies.
    pub description: String,
    /// Version of this template.
    pub version: u32,
    /// The target server configuration.
    pub target: TargetServer,
    /// The fields that can be extracted from the response.
    pub fields: Vec<FieldDefinition>,
    /// The default disclosure mask.
    pub default_disclosure: DisclosureMask,
    /// The claim type that attestations from this template carry.
    pub claim_type: String,
}

/// Configuration for the target server that will be notarized.
#[derive(Debug)]
pub struct TargetServer {
    /// The server's hostname (e.g. "votesearch.utah.gov").
    pub hostname: String,
    /// The URL path to request.
    pub path: String,
    /// HTTP method.
    pub method: HttpMethod,
    /// Expected response content type.
    pub expected_content_type: String,
}

/// HTTP methods supported by templates.
#[derive(Clone, Copy, Debug, PartialEq, Eq, Structural)]
pub enum HttpMethod {
    /// HTTP GET request.
    Get,
    /// HTTP POST request.
    Post,
}

/// Definition of a single extractable field of the server's response.
#[derive(Debug)]
pub struct FieldDefinition {
    /// The field's name as it appears in the attestation.
    pub name: String,
    /// A dot-separated path into the response JSON (e.g. "data.voter.status").
    pub json_path: String,
    /// The expected type of this field's value.
    pub field_type: FieldType,
    /// Whether this field is required for a valid attestation.
    pub required: bool,
    /// Optional regular expression that the field's value must match.
    pub validation_pattern: Option<String>,
    /// Human-readable description of what this field represents.
    pub description: String,
}

/// The data type of an extractable field.
#[derive(Clone, Copy, Debug, PartialEq, Eq, Structural)]
pub enum FieldType {
    /// A text string.
    String,
    /// A boolean value.
    Boolean,
    /// An integer number.
    Integer,
    /// A date in ISO 8601 format.
    Date,
}

/// Registry of available verification templates.
#[derive(Debug)]
pub struct TemplateRegistry {
    templates: Vec<VerificationTemplate>,
}

/// The index of the first template with the given id.
pub open spec fn first_with_id(templates: Seq<VerificationTemplate>, id: Seq<char>) -> Option<int>
    decreases templates.len(),
{
    if templates.len() == 0 {
        None
    } else {
        match first_with_id(templates.drop_last(), id) {
            Some(i) => Some(i),
            None => if templates.last().id@ == id {
                Some(templates.len() - 1)
            } else {
                None
            },
        }
    }
}

/// `first_with_id` finds the earliest template carrying the id.
pub proof fn lemma_first_with_id(templates: Seq<VerificationTemplate>, id: Seq<char>)
    ensures
        match first_with_id(templates, id) {
            Some(i) => 0 <= i < templates.len() && templates[i].id@ == id && forall|j: int|
                0 <= j < i ==> templates[j].id@ != id,
            None => forall|j: int| 0 <= j < templates.len() ==> templates[j].id@ != id,
        },
    decreases templates.len(),
{
    if templates.len() > 0 {
        lemma_first_with_id(templates.drop_last(), id);
        assert forall|j: int| 0 <= j < templates.len() - 1 implies templates[j] == templates.drop_last()[j] by {}
    }
}

impl TemplateRegistry {
    /// The registered templates, in registration order.
    pub closed spec fn view(&self) -> Seq<VerificationTemplate> {
        self.templates@
    }

    /// Create an empty template registry.
    pub fn new() -> (r: Self)
        ensures
            r.view() == Seq::<VerificationTemplate>::empty(),
    {
        TemplateRegistry { templates: Vec::new() }
    }

    /// Register a new template.
    pub fn register(&mut self, template: VerificationTemplate)
        ensures
            final(self).view() == old(self).view().push(template),
    {
        self.templates.push(template);
    }

    /// Look up a template by its unique ID (the first one registered with it).
    pub fn get(&self, id: &str) -> (found: Option<&VerificationTemplate>)
        ensures
            match first_with_id(self.view(), id@) {
                Some(i) => found == Some(&self.view()[i]),
                None => found is None,
            },
    {
        proof {
            lemma_first_with_id(self.templates@, id@);
        }
        for i in 0..self.templates.len()
            invariant
                forall|j: int| 0 <= j < i ==> self.templates@[j].id@ != id@,
        {
            if crate::json::str_eq(self.templates[i].id.as_str(), id) {
                proof {
                    lemma_first_with_id(self.templates@, id@);
                    let k = first_with_id(self.templates@, id@)->Some_0;
                    assert(first_with_id(self.templates@, id@) is Some);
                    assert(k == i);
                }
                return Some(&self.templates[i]);
            }
        }
        None
    }

    /// List all registered template IDs, in registration order.
    pub fn list_ids(&self) -> (ids: Vec<&str>)
        ensures
            ids@.len() == self.view().len(),
            forall|i: int| 0 <= i < ids@.len() ==> #[trigger] ids@[i]@ == self.view()[i].id@,
    {
        let mut ids: Vec<&str> = Vec::new();
        for i in 0..self.templates.len()
            invariant
                ids@.len() == i,
                forall|j: int| 0 <= j < i ==> #[trigger] ids@[j]@ == self.templates@[j].id@,
        {
            ids.push(self.templates[i].id.as_str());
        }
        ids
    }
}

impl Default for TemplateRegistry {
    fn default() -> (r: Self)
        ensures
            r.view() == Seq::<VerificationTemplate>::empty(),
    {
        TemplateRegistry::new()
    }
}


/// A field definition of a string-typed field.
fn string_field(
    name: &str,
    json_path: &str,
    required: bool,
    validation_pattern: Option<&str>,
    description: &str,
) -> (f: FieldDefinition)
    ensures
        f.name@ == name@,
        f.json_path@ == json_path@,
        f.field_type == FieldType::String,
        f.required == required,
        match validation_pattern {
            Some(p) => f.validation_pattern matches Some(q) && q@ == p@,
            None => f.validation_pattern is None,
        },
        f.description@ == description@,
{
    FieldDefinition {
        name: String::from_str(name),
        json_path: String::from_str(json_path),
        field_type: FieldType::String,
        required,
        validation_pattern: match validation_pattern {
            Some(p) => Some(String::from_str(p)),
            None => None,
        },
        description: String::from_str(description),
    }
}

/// The Utah voter registration template: a POST to the public voter-profile
/// API of votesearch.utah.gov, disclosing only the registration status and the
/// state, and redacting the API's error message and the voter's personal data.
pub fn utah_voter_template() -> (t: VerificationTemplate)
    ensures
        t.id@ == "utah-voter-v1"@,
        t.name@ == "Utah Voter Registration Lookup"@,
        t.description@ == "Verifies active voter registration via votesearch.utah.gov. Requires first/last name, DOB, and address. Reveals only registration status and state; all PII is cryptographically redacted."@,
        t.version == 1,
        t.target.hostname@ == "votesearch.utah.gov"@,
        t.target.path@ == "/voter-search/public-api/my-voter-profile"@,
        t.target.method == HttpMethod::Post,
        t.target.expected_content_type@ == "application/json"@,
        t.fields@.len() == 3,
        t.fields@[0].name@ == "status"@,
        t.fields@[0].json_path@ == "voter.status"@,
        t.fields@[0].field_type == FieldType::String,
        t.fields@[0].required,
        t.fields@[0].validation_pattern matches Some(p) && p@
            == "^(Active|Inactive|Cancelled|Suspended)$"@,
        t.fields@[0].description@ == "Voter registration status."@,
        t.fields@[1].name@ == "state"@,
        t.fields@[1].json_path@ == "residence.physicalState"@,
        t.fields@[1].field_type == FieldType::String,
        t.fields@[1].required,
        t.fields@[1].validation_pattern matches Some(p) && p@ == "^UT$"@,
        t.fields@[1].description@ == "State of residence."@,
        t.fields@[2].name@ == "errorMessage"@,
        t.fields@[2].json_path@ == "errorMessage"@,
        t.fields@[2].field_type == FieldType::String,
        !t.fields@[2].required,
        t.fields@[2].validation_pattern is None,
        t.fields@[2].description@ == "API error message (null on success)."@,
        string_views(t.default_disclosure.disclosed_paths@) == seq![
            "voter.status"@,
            "residence.physicalState"@,
        ],
        string_views(t.default_disclosure.redacted_paths@) == seq![
            "errorMessage"@,
            "voter.first"@,
            "voter.middle"@,
            "voter.last"@,
            "voter.party"@,
            "voter.voterId"@,
            "residence.physicalAddress1"@,
            "residence.physicalCity"@,
            "residence.physicalZip"@,
            "countyName"@,
            "precinctId"@,
        ],
        t.claim_type@ == "voter_registration"@,
{
    let mut fields: Vec<FieldDefinition> = Vec::new();
    fields.push(
        string_field(
            "status",
            "voter.status",
            true,
            Some("^(Active|Inactive|Cancelled|Suspended)$"),
            "Voter registration status.",
        ),
    );
    fields.push(
        string_field(
            "state",
            "residence.physicalState",
            true,
            Some("^UT$"),
            "State of residence.",
        ),
    );
    fields.push(
        string_field(
            "errorMessage",
            "errorMessage",
            false,
            None,
            "API error message (null on success).",
        ),
    );
    let mut disclosed: Vec<String> = Vec::new();
    disclosed.push(String::from_str("voter.status"));
    disclosed.push(String::from_str("residence.physicalState"));
    let mut redacted: Vec<String> = Vec::new();
    redacted.push(String::from_str("errorMessage"));
    redacted.push(String::from_str("voter.first"));
    redacted.push(String::from_str("voter.middle"));
    redacted.push(String::from_str("voter.last"));
    redacted.push(String::from_str("voter.party"));
    redacted.push(String::from_str("voter.voterId"));
    redacted.push(String::from_str("residence.physicalAddress1"));
    redacted.push(String::from_str("residence.physicalCity"));
    redacted.push(String::from_str("residence.physicalZip"));
    redacted.push(String::from_str("countyName"));
    redacted.push(String::from_str("precinctId"));
    let t = VerificationTemplate {
        id: String::from_str("utah-voter-v1"),
        name: String::from_str("Utah Voter Registration Lookup"),
        description: String::from_str(
            "Verifies active voter registration via votesearch.utah.gov. Requires first/last name, DOB, and address. Reveals only registration status and state; all PII is cryptographically redacted.",
        ),
        version: 1,
        target: TargetServer {
            hostname: String::from_str("votesearch.utah.gov"),
            path: String::from_str("/voter-search/public-api/my-voter-profile"),
            method: HttpMethod::Post,
            expected_content_type: String::from_str("application/json"),
        },
        fields,
        default_disclosure: DisclosureMask { disclosed_paths: disclosed, redacted_paths: redacted },
        claim_type: String::from_str("voter_registration"),
    };
    assert(string_views(t.default_disclosure.disclosed_paths@) =~= seq![
        "voter.status"@,
        "residence.physicalState"@,
    ]);
    assert(string_views(t.default_disclosure.redacted_paths@) =~= seq![
        "errorMessage"@,
        "voter.first"@,
        "voter.middle"@,
        "voter.last"@,
        "voter.party"@,
        "voter.voterId"@,
        "residence.physicalAddress1"@,
        "residence.physicalCity"@,
        "residence.physicalZip"@,
        "countyName"@,
        "precinctId"@,
    ]);
    t
}

} // verus!
