//! Verification of zkTLS proofs: notary trust, Ed25519 signatures,
//! attestation expiry, and the disclosed fields against their template.

use vstd::prelude::*;

use crate::digest::{hex_encode, hex_lower};
use crate::keys::{ed25519_check_public_key, ed25519_key_accepted, ed25519_key_error_of, ed25519_verifies, ed25519_verify};
use crate::session::{build_signing_message, signing_message};
use crate::text::{bytes_eq, concat2, concat3};
use crate::time::{now, rfc3339_of, to_rfc3339, Timestamp};
use crate::json::{option_tree, JsonTree, JsonValue};
use crate::templates::{first_with_id, FieldDefinition, TemplateRegistry, VerificationTemplate};
use crate::types::{copy_bytes, Attestation, FieldMap, SessionProof};

verus! {

/// Errors that can occur during proof verification.
#[derive(Debug)]
pub enum VerificationError {
    /// The notary's signature did not verify against the proof data.
    InvalidSignature,
    /// The notary that signed this proof is not in the trusted set (hex key).
    UntrustedNotary(String),
    /// The attestation does not match the expected template.
    TemplateMismatch(String),
    /// The disclosed fields do not reconstruct the transcript commitment.
    DisclosureIntegrityFailed,
    /// The attestation has expired (at the given RFC 3339 time).
    Expired(String),
    /// A required disclosed field is missing.
    MissingRequiredField(String),
    /// A disclosed field value does not match the expected pattern.
    FieldPatternMismatch {
        /// The field name that failed validation.
        field: String,
        /// The actual value found.
        value: String,
        /// The expected pattern.
        pattern: String,
    },
    /// The public key bytes are invalid.
    InvalidPublicKey(String),
}

impl VerificationError {
    /// The text of this error.
    pub open spec fn spec_message(&self) -> Seq<char> {
        match self {
            VerificationError::InvalidSignature => "notary signature verification failed"@,
            VerificationError::UntrustedNotary(k) => "notary not trusted: "@ + k@,
            VerificationError::TemplateMismatch(m) => "template mismatch: "@ + m@,
            VerificationError::DisclosureIntegrityFailed => "disclosure integrity check failed"@,
            VerificationError::Expired(t) => "attestation expired at "@ + t@,
            VerificationError::MissingRequiredField(f) => "required field missing: "@ + f@,
            VerificationError::FieldPatternMismatch { field, value, pattern } => "field '"@ + field@
                + "' value '"@ + value@ + "' does not match pattern '"@ + pattern@ + "'"@,
            VerificationError::InvalidPublicKey(m) => "invalid public key: "@ + m@,
        }
    }

    /// The human-readable text of this error.
    pub fn message(&self) -> (text: String)
        ensures
            text@ == self.spec_message(),
    {
        match self {
            VerificationError::InvalidSignature => String::from_str(
                "notary signature verification failed",
            ),
            VerificationError::UntrustedNotary(k) => concat2("notary not trusted: ", k.as_str()),
            VerificationError::TemplateMismatch(m) => concat2("template mismatch: ", m.as_str()),
            VerificationError::DisclosureIntegrityFailed => String::from_str(
                "disclosure integrity check failed",
            ),
            VerificationError::Expired(t) => concat2("attestation expired at ", t.as_str()),
            VerificationError::MissingRequiredField(f) => concat2(
                "required field missing: ",
                f.as_str(),
            ),
            VerificationError::FieldPatternMismatch { field, value, pattern } => {
                let mut text = concat3("field '", field.as_str(), "' value '");
                text.append(value.as_str());
                text.append("' does not match pattern '");
                text.append(pattern.as_str());
                text.append("'");
                text
            },
            VerificationError::InvalidPublicKey(m) => concat2("invalid public key: ", m.as_str()),
        }
    }
}

/// The result of a successful verification, with the extracted claims.
#[derive(Debug)]
pub struct VerificationResult {
    /// Whether the proof passed all verification checks.
    pub valid: bool,
    /// The claim type that was verified.
    pub claim_type: String,
    /// The verified disclosed fields.
    pub verified_fields: FieldMap,
    /// The notary public key that signed the proof.
    pub notary_key: Vec<u8>,
    /// Human-readable summary.
    pub summary: String,
}

/// A trusted notary entry in the verifier's trust store.
#[derive(Debug)]
pub struct TrustedNotary {
    /// Human-readable name.
    pub name: String,
    /// The notary's Ed25519 public key (32 bytes).
    pub public_key: Vec<u8>,
    /// Optional service endpoint URL.
    pub endpoint: Option<String>,
}

/// The index of the first trusted notary with the given public key.
pub open spec fn first_trusted(trusted: Seq<TrustedNotary>, key: Seq<u8>) -> Option<int>
    decreases trusted.len(),
{
    if trusted.len() == 0 {
        None
    } else {
        match first_trusted(trusted.drop_last(), key) {
            Some(i) => Some(i),
            None => if trusted.last().public_key@ == key {
                Some(trusted.len() - 1)
            } else {
                None
            },
        }
    }
}

/// `first_trusted` finds the earliest notary with the key.
pub proof fn lemma_first_trusted(trusted: Seq<TrustedNotary>, key: Seq<u8>)
    ensures
        match first_trusted(trusted, key) {
            Some(i) => 0 <= i < trusted.len() && trusted[i].public_key@ == key && forall|j: int|
                0 <= j < i ==> trusted[j].public_key@ != key,
            None => forall|j: int| 0 <= j < trusted.len() ==> trusted[j].public_key@ != key,
        },
    decreases trusted.len(),
{
    if trusted.len() > 0 {
        lemma_first_trusted(trusted.drop_last(), key);
        assert forall|j: int| 0 <= j < trusted.len() - 1 implies trusted[j] == trusted.drop_last()[j] by {}
    }
}

/// The outcome of checking a session proof against a trust store, in the
/// order the checks are made.
pub enum ProofCheck {
    /// No trusted notary has the proof's public key.
    Untrusted,
    /// The public key is not 32 bytes long.
    KeyWrongLength,
    /// The 32 bytes are not an Ed25519 public key.
    KeyRejected,
    /// The signature is not 64 bytes long.
    SignatureWrongLength,
    /// The signature does not verify over the signing message.
    SignatureRejected,
    /// All checks pass.
    Valid,
}

/// The checks on a session proof: the notary must be trusted, its key must be
/// a 32-byte Ed25519 public key, and the 64-byte signature must verify over
/// the signing message rebuilt from the proof.
pub open spec fn proof_check(trusted: Seq<TrustedNotary>, p: SessionProof) -> ProofCheck {
    let key = p.notary_public_key@;
    if first_trusted(trusted, key) is None {
        ProofCheck::Untrusted
    } else if key.len() != 32 {
        ProofCheck::KeyWrongLength
    } else if !ed25519_key_accepted(key) {
        ProofCheck::KeyRejected
    } else if p.notary_signature@.len() != 64 {
        ProofCheck::SignatureWrongLength
    } else if !ed25519_verifies(
        key,
        signing_message(
            p.server_hostname@,
            p.certificate_hash@,
            p.transcript_commitment@,
            p.session_timestamp,
        ),
        p.notary_signature@,
    ) {
        ProofCheck::SignatureRejected
    } else {
        ProofCheck::Valid
    }
}

/// Whether an error is the one reported for a failed check.
pub open spec fn error_for_check(e: VerificationError, check: ProofCheck, key: Seq<u8>) -> bool {
    match check {
        ProofCheck::Untrusted => e matches VerificationError::UntrustedNotary(h) && h@ == hex_lower(
            key,
        ),
        ProofCheck::KeyWrongLength => e matches VerificationError::InvalidPublicKey(m) && m@
            == "expected 32 bytes"@,
        ProofCheck::KeyRejected => e matches VerificationError::InvalidPublicKey(m) && m@
            == ed25519_key_error_of(key),
        ProofCheck::SignatureWrongLength => e is InvalidSignature,
        ProofCheck::SignatureRejected => e is InvalidSignature,
        ProofCheck::Valid => false,
    }
}

/// The summary of a verified claim.
pub open spec fn summary_text(claim_type: Seq<char>, notary_name: Seq<char>) -> Seq<char> {
    "Verified "@ + claim_type + " claim signed by "@ + notary_name
}

/// Whether `r` is the outcome of verifying `a` backed by `p` at time `at`:
/// the proof checks come first; then an attestation whose expiry is before
/// `at` is refused; then the attestation's template must be known and its
/// disclosed fields must pass the template's checks; otherwise the claims
/// are returned, with a summary naming the notary.
pub open spec fn attestation_outcome(
    trusted: Seq<TrustedNotary>,
    templates: Seq<VerificationTemplate>,
    a: Attestation,
    p: SessionProof,
    at: Timestamp,
    r: Result<VerificationResult, VerificationError>,
) -> bool {
    let check = proof_check(trusted, p);
    if check != ProofCheck::Valid {
        r matches Err(e) && error_for_check(e, check, p.notary_public_key@)
    } else if a.expires_at matches Some(e) && e.spec_before(at) {
        r matches Err(VerificationError::Expired(t)) && t@ == rfc3339_of(
            a.expires_at->Some_0.secs,
            a.expires_at->Some_0.nanos,
        )
    } else if !template_passes(templates, a) {
        r matches Err(e) && template_error(templates, a, e)
    } else {
        r matches Ok(res) && {
            &&& res.valid
            &&& res.claim_type@ == a.claim_type@
            &&& res.verified_fields.view() == a.disclosed_fields.view()
            &&& res.notary_key@ == p.notary_public_key@
            &&& res.summary@ == summary_text(
                a.claim_type@,
                trusted[first_trusted(trusted, p.notary_public_key@)->Some_0].name@,
            )
        }
    }
}

/// Whether the regular expression `pattern` matches somewhere in `text`, as
/// the `regex` crate decides; `None` when the crate refuses the pattern.
pub uninterp spec fn regex_match_of(pattern: Seq<char>, text: Seq<char>) -> Option<bool>;

/// Match a validation pattern against a value's text.
///
/// Trusted: calls `regex::Regex::new` on the pattern and `Regex::is_match` on
/// the text; `None` when `Regex::new` fails. The outcome is named
/// `regex_match_of` of the two texts.
#[verifier::external_body]
fn pattern_matches(pattern: &str, text: &str) -> (r: Option<bool>)
    ensures
        r == regex_match_of(pattern@, text@),
{
    regex::Regex::new(pattern).ok().map(|re| re.is_match(text))
}

/// The text of a disclosed value that a validation pattern is matched
/// against: a string's characters, a number's JSON text, `true`, `false` or
/// `null`; an array or object has no scalar text and is matched as the empty
/// text.
pub open spec fn scalar_text(t: JsonTree) -> Seq<char> {
    match t {
        JsonTree::Str(s) => s,
        JsonTree::Number(n) => n,
        JsonTree::Bool(b) => if b {
            "true"@
        } else {
            "false"@
        },
        JsonTree::Null => "null"@,
        _ => Seq::empty(),
    }
}

/// The outcome of checking disclosed fields against a template's fields.
pub enum FieldCheck {
    /// Every check passes.
    Pass,
    /// A required field (by name) is not disclosed.
    Missing(Seq<char>),
    /// A disclosed value (field name, value text, pattern) does not match.
    Mismatch(Seq<char>, Seq<char>, Seq<char>),
    /// A field's pattern (field name, pattern) is not a valid expression.
    BadPattern(Seq<char>, Seq<char>),
}

/// The check of one field: a required field must be disclosed, and a
/// disclosed field with a validation pattern must match it.
pub open spec fn field_check_one(f: FieldDefinition, disclosed: Map<Seq<char>, JsonTree>) -> FieldCheck {
    if !disclosed.contains_key(f.name@) {
        if f.required {
            FieldCheck::Missing(f.name@)
        } else {
            FieldCheck::Pass
        }
    } else {
        match f.validation_pattern {
            None => FieldCheck::Pass,
            Some(p) => {
                let text = scalar_text(disclosed[f.name@]);
                match regex_match_of(p@, text) {
                    Some(true) => FieldCheck::Pass,
                    Some(false) => FieldCheck::Mismatch(f.name@, text, p@),
                    None => FieldCheck::BadPattern(f.name@, p@),
                }
            },
        }
    }
}

/// The checks of a template's fields in order; the first failure decides.
pub open spec fn field_check(fields: Seq<FieldDefinition>, disclosed: Map<Seq<char>, JsonTree>) -> FieldCheck
    decreases fields.len(),
{
    if fields.len() == 0 {
        FieldCheck::Pass
    } else {
        match field_check(fields.drop_last(), disclosed) {
            FieldCheck::Pass => field_check_one(fields.last(), disclosed),
            failed => failed,
        }
    }
}

/// The template checks of an attestation: the verifier must know its
/// template, and its disclosed fields must pass the template's field checks.
pub open spec fn template_error(
    templates: Seq<VerificationTemplate>,
    a: Attestation,
    e: VerificationError,
) -> bool {
    match first_with_id(templates, a.template_id@) {
        None => e matches VerificationError::TemplateMismatch(m) && m@ == "unknown template: "@
            + a.template_id@,
        Some(i) => match field_check(templates[i].fields@, a.disclosed_fields.view()) {
            FieldCheck::Pass => false,
            FieldCheck::Missing(n) => e matches VerificationError::MissingRequiredField(m) && m@
                == n,
            FieldCheck::Mismatch(n, v, p) => e matches VerificationError::FieldPatternMismatch {
                field,
                value,
                pattern,
            } && field@ == n && value@ == v && pattern@ == p,
            FieldCheck::BadPattern(n, p) => e matches VerificationError::TemplateMismatch(m) && m@
                == "invalid validation pattern for field "@ + n + ": "@ + p,
        },
    }
}

/// Whether the attestation passes the template checks.
pub open spec fn template_passes(templates: Seq<VerificationTemplate>, a: Attestation) -> bool {
    match first_with_id(templates, a.template_id@) {
        None => false,
        Some(i) => field_check(templates[i].fields@, a.disclosed_fields.view()) == FieldCheck::Pass,
    }
}

/// The scalar text of a disclosed value.
fn value_text(v: &JsonValue) -> (t: String)
    ensures
        t@ == scalar_text(v.tree()),
{
    match v {
        JsonValue::Str(s) => s.clone(),
        JsonValue::Number(n) => n.clone(),
        JsonValue::Bool(b) => if *b {
            String::from_str("true")
        } else {
            String::from_str("false")
        },
        JsonValue::Null => String::from_str("null"),
        _ => String::new(),
    }
}

/// Check disclosed fields against a template's fields.
fn check_fields(fields: &Vec<FieldDefinition>, disclosed: &FieldMap) -> (r: Result<(), VerificationError>)
    ensures
        match field_check(fields@, disclosed.view()) {
            FieldCheck::Pass => r is Ok,
            FieldCheck::Missing(n) => r matches Err(VerificationError::MissingRequiredField(m)) && m@
                == n,
            FieldCheck::Mismatch(n, v, p) => r matches Err(
                VerificationError::FieldPatternMismatch { field, value, pattern },
            ) && field@ == n && value@ == v && pattern@ == p,
            FieldCheck::BadPattern(n, p) => r matches Err(VerificationError::TemplateMismatch(m))
                && m@ == "invalid validation pattern for field "@ + n + ": "@ + p,
        },
{
    let n = fields.len();
    assert(fields@.take(0) =~= Seq::<FieldDefinition>::empty());
    for i in 0..n
        invariant
            n == fields@.len(),
            field_check(fields@.take(i as int), disclosed.view()) == FieldCheck::Pass,
    {
        let f = &fields[i];
        assert(fields@.take(i + 1).drop_last() =~= fields@.take(i as int));
        assert(fields@.take(i + 1).last() == fields@[i as int]);
        proof {
            lemma_field_check_sticks(fields@, disclosed.view(), i + 1);
        }
        match disclosed.get(f.name.as_str()) {
            None => {
                if f.required {
                    return Err(VerificationError::MissingRequiredField(f.name.clone()));
                }
            },
            Some(v) => {
                match &f.validation_pattern {
                    None => {},
                    Some(p) => {
                        let text = value_text(v);
                        match pattern_matches(p.as_str(), text.as_str()) {
                            Some(true) => {},
                            Some(false) => {
                                return Err(
                                    VerificationError::FieldPatternMismatch {
                                        field: f.name.clone(),
                                        value: text,
                                        pattern: p.clone(),
                                    },
                                );
                            },
                            None => {
                                let mut m = concat3(
                                    "invalid validation pattern for field ",
                                    f.name.as_str(),
                                    ": ",
                                );
                                m.append(p.as_str());
                                return Err(VerificationError::TemplateMismatch(m));
                            },
                        }
                    },
                }
            },
        }
    }
    assert(fields@.take(n as int) =~= fields@);
    Ok(())
}

/// A failed prefix decides the checks of every longer prefix.
proof fn lemma_field_check_sticks(
    fields: Seq<FieldDefinition>,
    disclosed: Map<Seq<char>, JsonTree>,
    k: int,
)
    requires
        0 <= k <= fields.len(),
    ensures
        field_check(fields.take(k), disclosed) != FieldCheck::Pass ==> field_check(fields, disclosed)
            == field_check(fields.take(k), disclosed),
    decreases fields.len() - k,
{
    if k < fields.len() {
        assert(fields.take(k + 1).drop_last() =~= fields.take(k));
        lemma_field_check_sticks(fields, disclosed, k + 1);
    } else {
        assert(fields.take(k) =~= fields);
    }
}

/// Proof verification.
pub trait Verify {
    /// Verify a session proof against the trust store.
    fn verify_proof(&self, proof: &SessionProof) -> Result<(), VerificationError>
        requires
            proof.wf(),
    ;

    /// Verify an attestation against its backing proof.
    fn verify_attestation(&self, attestation: &Attestation, proof: &SessionProof) -> Result<
        VerificationResult,
        VerificationError,
    >
        requires
            attestation.wf(),
            proof.wf(),
    ;
}

/// Standard Ed25519 proof verifier.
///
/// Checks that the proof's notary public key is trusted, that the Ed25519
/// signature over the signing message verifies, that the attestation has not
/// expired, and that its disclosed fields hold every required field of its
/// template and match the fields' validation patterns.
#[derive(Debug)]
pub struct Ed25519Verifier {
    trusted_notaries: Vec<TrustedNotary>,
    templates: TemplateRegistry,
}

impl Ed25519Verifier {
    /// The trusted notaries, in the order they were added.
    pub closed spec fn trusted(&self) -> Seq<TrustedNotary> {
        self.trusted_notaries@
    }

    /// The templates the verifier checks attestations against, in the order
    /// they were added.
    pub closed spec fn templates(&self) -> Seq<VerificationTemplate> {
        self.templates.view()
    }

    /// Create a verifier with the given trusted notaries and no templates.
    pub fn new(trusted_notaries: Vec<TrustedNotary>) -> (v: Self)
        ensures
            v.trusted() == trusted_notaries@,
            v.templates() == Seq::<VerificationTemplate>::empty(),
    {
        Ed25519Verifier { trusted_notaries, templates: TemplateRegistry::new() }
    }

    /// Add a template that attestations may name.
    pub fn add_template(&mut self, template: VerificationTemplate)
        ensures
            final(self).templates() == old(self).templates().push(template),
            final(self).trusted() == old(self).trusted(),
    {
        self.templates.register(template);
    }

    /// Add a trusted notary.
    pub fn add_notary(&mut self, notary: TrustedNotary)
        ensures
            final(self).trusted() == old(self).trusted().push(notary),
            final(self).templates() == old(self).templates(),
    {
        self.trusted_notaries.push(notary);
    }

    /// The first trusted notary with the given public key.
    fn is_trusted(&self, public_key: &[u8]) -> (found: Option<&TrustedNotary>)
        ensures
            match first_trusted(self.trusted(), public_key@) {
                Some(i) => found == Some(&self.trusted()[i]),
                None => found is None,
            },
    {
        for i in 0..self.trusted_notaries.len()
            invariant
                forall|j: int| 0 <= j < i ==> self.trusted_notaries@[j].public_key@ != public_key@,
        {
            if bytes_eq(self.trusted_notaries[i].public_key.as_slice(), public_key) {
                proof {
                    lemma_first_trusted(self.trusted_notaries@, public_key@);
                }
                return Some(&self.trusted_notaries[i]);
            }
        }
        proof {
            lemma_first_trusted(self.trusted_notaries@, public_key@);
        }
        None
    }

    /// Verify an attestation against its backing proof at the given time.
    pub fn verify_attestation_at(
        &self,
        attestation: &Attestation,
        proof: &SessionProof,
        at: &Timestamp,
    ) -> (r: Result<VerificationResult, VerificationError>)
        requires
            attestation.wf(),
            proof.wf(),
        ensures
            attestation_outcome(self.trusted(), self.templates(), *attestation, *proof, *at, r),
    {
        match self.verify_proof(proof) {
            Err(e) => {
                return Err(e);
            },
            Ok(()) => {},
        }
        if let Some(expires_at) = &attestation.expires_at {
            if expires_at.is_before(at) {
                return Err(VerificationError::Expired(to_rfc3339(expires_at)));
            }
        }
        match self.templates.get(attestation.template_id.as_str()) {
            None => {
                return Err(
                    VerificationError::TemplateMismatch(
                        concat2("unknown template: ", attestation.template_id.as_str()),
                    ),
                );
            },
            Some(template) => {
                match check_fields(&template.fields, &attestation.disclosed_fields) {
                    Err(e) => {
                        return Err(e);
                    },
                    Ok(()) => {},
                }
            },
        }
        match self.is_trusted(proof.notary_public_key.as_slice()) {
            Some(notary) => {
                let mut summary = concat3(
                    "Verified ",
                    attestation.claim_type.as_str(),
                    " claim signed by ",
                );
                summary.append(notary.name.as_str());
                Ok(
                    VerificationResult {
                        valid: true,
                        claim_type: attestation.claim_type.clone(),
                        verified_fields: attestation.disclosed_fields.copy(),
                        notary_key: copy_bytes(&proof.notary_public_key),
                        summary,
                    },
                )
            },
            None => Err(VerificationError::UntrustedNotary(hex_encode(proof.notary_public_key.as_slice()))),
        }
    }
}

impl Verify for Ed25519Verifier {
    fn verify_proof(&self, proof: &SessionProof) -> (r: Result<(), VerificationError>)
        ensures
            proof_check(self.trusted(), *proof) == ProofCheck::Valid ==> r is Ok,
            proof_check(self.trusted(), *proof) != ProofCheck::Valid ==> (r matches Err(e)
                && error_for_check(e, proof_check(self.trusted(), *proof), proof.notary_public_key@)),
    {
        let key = proof.notary_public_key.as_slice();
        if self.is_trusted(key).is_none() {
            return Err(VerificationError::UntrustedNotary(hex_encode(key)));
        }
        if key.len() != 32 {
            return Err(VerificationError::InvalidPublicKey(String::from_str("expected 32 bytes")));
        }
        match ed25519_check_public_key(key) {
            Ok(()) => {},
            Err(message) => {
                return Err(VerificationError::InvalidPublicKey(message));
            },
        }
        let signature = proof.notary_signature.as_slice();
        if signature.len() != 64 {
            return Err(VerificationError::InvalidSignature);
        }
        let message = build_signing_message(
            proof.server_hostname.as_str(),
            proof.certificate_hash.as_slice(),
            proof.transcript_commitment.as_slice(),
            &proof.session_timestamp,
        );
        if !ed25519_verify(key, message.as_slice(), signature) {
            return Err(VerificationError::InvalidSignature);
        }
        Ok(())
    }

    fn verify_attestation(&self, attestation: &Attestation, proof: &SessionProof) -> (r: Result<
        VerificationResult,
        VerificationError,
    >)
        ensures
            exists|at: Timestamp|
                at.wf() && attestation_outcome(
                    self.trusted(),
                    self.templates(),
                    *attestation,
                    *proof,
                    at,
                    r,
                ),
    {
        let at = now();
        self.verify_attestation_at(attestation, proof, &at)
    }
}

} // verus!
