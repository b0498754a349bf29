//! Notary sessions: the proof signing message, proof generation, field
//! extraction and the session store.

use vstd::prelude::*;
use vstd::utf8::encode_utf8;

use crate::digest::{sha512_hash, sha512_of};
use crate::error::NotaryError;
use crate::json::{
    append_bytes, json_parse_of, navigate_json_path, parse_json, tree_at_path, tree_bytes,
    write_json, JsonTree, JsonValue,
};
use crate::keys::{ed25519_key_accepted, ed25519_public_key_of, ed25519_signature_of, ed25519_verifies, NotaryKeyPair};
use crate::templates::FieldDefinition;
use crate::text::concat3;
use crate::time::{now, rfc3339_of, to_rfc3339, Timestamp};
use crate::types::{contains_string, strings_contain, DisclosureMask, FieldMap, SessionProof};

verus! {

/// The message the notary signs: hostname, certificate hash, transcript
/// commitment and the RFC 3339 timestamp, each followed by a zero byte except
/// the last.
pub open spec fn signing_message(
    hostname: Seq<char>,
    cert_hash: Seq<u8>,
    transcript_commitment: Seq<u8>,
    timestamp: Timestamp,
) -> Seq<u8> {
    encode_utf8(hostname) + seq![0u8] + cert_hash + seq![0u8] + transcript_commitment + seq![0u8]
        + encode_utf8(rfc3339_of(timestamp.secs, timestamp.nanos))
}

/// Build the proof signing message from session data.
///
/// The notary signs hostname || cert_hash || transcript_commitment ||
/// timestamp, which binds the proof to a server, a response and a time.
pub fn build_signing_message(
    hostname: &str,
    cert_hash: &[u8],
    transcript_commitment: &[u8],
    timestamp: &Timestamp,
) -> (msg: Vec<u8>)
    requires
        timestamp.wf(),
    ensures
        msg@ == signing_message(hostname@, cert_hash@, transcript_commitment@, *timestamp),
{
    let mut msg: Vec<u8> = Vec::new();
    append_bytes(&mut msg, hostname.as_bytes());
    msg.push(0x00);
    append_bytes(&mut msg, cert_hash);
    msg.push(0x00);
    append_bytes(&mut msg, transcript_commitment);
    msg.push(0x00);
    let stamp = to_rfc3339(timestamp);
    append_bytes(&mut msg, stamp.as_str().as_bytes());
    assert(msg@ =~= signing_message(hostname@, cert_hash@, transcript_commitment@, *timestamp));
    msg
}

/// Whether `p` is the proof that the key pair with secret seed `seed` makes
/// at time `at` for a response body fetched from `hostname` whose certificate
/// hash is `cert_hash`: its commitment is the SHA-512 of the body, its
/// signature is the Ed25519 signature of the signing message, which the
/// notary's public key (32 bytes, a valid curve point) accepts.
pub open spec fn is_generated_proof(
    p: SessionProof,
    hostname: Seq<char>,
    response_body: Seq<char>,
    cert_hash: Seq<u8>,
    seed: Seq<u8>,
    at: Timestamp,
) -> bool {
    let commitment = sha512_of(encode_utf8(response_body));
    let message = signing_message(hostname, cert_hash, commitment, at);
    &&& p.server_hostname@ == hostname
    &&& p.certificate_hash@ == cert_hash
    &&& p.transcript_commitment@ == commitment
    &&& p.notary_signature@ == ed25519_signature_of(seed, message)
    &&& p.notary_public_key@ == ed25519_public_key_of(seed)
    &&& p.session_timestamp == at
    &&& p.proof_timestamp == at
    &&& p.notary_public_key@.len() == 32
    &&& p.notary_signature@.len() == 64
    &&& ed25519_key_accepted(p.notary_public_key@)
    &&& ed25519_verifies(p.notary_public_key@, message, p.notary_signature@)
}

/// Generate the session proof for a completed fetch at a given time: the
/// transcript commitment is the SHA-512 of the response body, and the notary
/// signs the signing message over it.
pub fn generate_proof_at(
    hostname: &str,
    response_body: &str,
    cert_hash: &[u8],
    keypair: &NotaryKeyPair,
    at: &Timestamp,
) -> (proof: SessionProof)
    requires
        at.wf(),
    ensures
        is_generated_proof(proof, hostname@, response_body@, cert_hash@, keypair.secret_seed(), *at),
        proof.wf(),
        proof.transcript_commitment@.len() == 64,
{
    let transcript_commitment = sha512_hash(response_body.as_bytes());
    let signing_message = build_signing_message(
        hostname,
        cert_hash,
        transcript_commitment.as_slice(),
        at,
    );
    let signature = keypair.sign(signing_message.as_slice());
    SessionProof {
        server_hostname: String::from_str(hostname),
        certificate_hash: vstd::slice::slice_to_vec(cert_hash),
        transcript_commitment,
        notary_signature: signature,
        notary_public_key: keypair.public_key_bytes(),
        session_timestamp: at.copy(),
        proof_timestamp: at.copy(),
    }
}

/// Generate a session proof from a completed fetch, stamped with the current
/// time.
pub fn generate_proof(
    hostname: &str,
    response_body: &str,
    cert_hash: &[u8],
    keypair: &NotaryKeyPair,
) -> (proof: SessionProof)
    ensures
        is_generated_proof(
            proof,
            hostname@,
            response_body@,
            cert_hash@,
            keypair.secret_seed(),
            proof.session_timestamp,
        ),
        proof.wf(),
        proof.transcript_commitment@.len() == 64,
{
    let at = now();
    generate_proof_at(hostname, response_body, cert_hash, keypair, &at)
}

/// Disclosed fields by name, and the hashes of the redacted fields.
pub type ExtractedFields = (FieldMap, Vec<Vec<u8>>);

/// The hash recorded for a redacted field: SHA-512 of its path, a colon, and
/// the compact JSON text of its value.
pub open spec fn redaction_hash(path: Seq<char>, value: JsonTree) -> Seq<u8> {
    sha512_of(encode_utf8(path) + seq![0x3au8] + tree_bytes(value))
}

/// The message for a required disclosed field that the response lacks.
pub open spec fn missing_field_message(name: Seq<char>, path: Seq<char>) -> Seq<char> {
    "required field '"@ + name + "' not found at path '"@ + path + "'"@
}

/// The effect of one field definition on the extraction so far: a required
/// field that the document lacks stops the extraction, whichever list of the
/// mask holds its path; otherwise a disclosed field is recorded under its
/// name (`null` when absent), and a redacted field that is present has the
/// hash of its value recorded.
pub open spec fn extraction_step(
    doc: JsonTree,
    field: FieldDefinition,
    mask: DisclosureMask,
    disclosed: Map<Seq<char>, JsonTree>,
    hashes: Seq<Seq<u8>>,
) -> Result<(Map<Seq<char>, JsonTree>, Seq<Seq<u8>>), Seq<char>> {
    let path = field.json_path@;
    let value = tree_at_path(doc, path);
    if field.required && value is None {
        Err(missing_field_message(field.name@, path))
    } else if strings_contain(mask.disclosed_paths@, path) {
        match value {
            Some(v) => Ok((disclosed.insert(field.name@, v), hashes)),
            None => Ok((disclosed.insert(field.name@, JsonTree::Null), hashes)),
        }
    } else if strings_contain(mask.redacted_paths@, path) {
        match value {
            Some(v) => Ok((disclosed, hashes.push(redaction_hash(path, v)))),
            None => Ok((disclosed, hashes)),
        }
    } else {
        Ok((disclosed, hashes))
    }
}

/// Field extraction: each field definition in turn discloses its value under
/// its name (`null` when an optional field is absent), or records the hash
/// of its value when its path is redacted; the first required field that is
/// absent stops the extraction with an error message.
pub open spec fn extraction(
    doc: JsonTree,
    fields: Seq<FieldDefinition>,
    mask: DisclosureMask,
) -> Result<(Map<Seq<char>, JsonTree>, Seq<Seq<u8>>), Seq<char>>
    decreases fields.len(),
{
    if fields.len() == 0 {
        Ok((Map::empty(), Seq::empty()))
    } else {
        match extraction(doc, fields.drop_last(), mask) {
            Err(e) => Err(e),
            Ok((disclosed, hashes)) => extraction_step(doc, fields.last(), mask, disclosed, hashes),
        }
    }
}

/// The byte strings held by a list of byte vectors.
pub open spec fn byte_lists(v: Seq<Vec<u8>>) -> Seq<Seq<u8>> {
    v.map_values(|b: Vec<u8>| b@)
}

/// Whether an extraction result is the one `extraction` describes.
pub open spec fn extraction_matches(
    r: Result<ExtractedFields, NotaryError>,
    expected: Result<(Map<Seq<char>, JsonTree>, Seq<Seq<u8>>), Seq<char>>,
) -> bool {
    match (r, expected) {
        (Ok((disclosed, hashes)), Ok((m, h))) => disclosed.view() == m && byte_lists(hashes@) == h,
        (Err(NotaryError::ExtractionFailed(msg)), Err(e)) => msg@ == e,
        _ => false,
    }
}

/// Extract fields from a parsed JSON response according to template field
/// definitions and a disclosure mask.
pub fn extract_from_document(
    doc: &JsonValue,
    fields: &Vec<FieldDefinition>,
    disclosure: &DisclosureMask,
) -> (r: Result<ExtractedFields, NotaryError>)
    ensures
        extraction_matches(r, extraction(doc.tree(), fields@, *disclosure)),
{
    let mut disclosed = FieldMap::new();
    let mut hashes: Vec<Vec<u8>> = Vec::new();
    let n = fields.len();
    assert(fields@.take(0) =~= Seq::<FieldDefinition>::empty());
    assert(byte_lists(hashes@) =~= Seq::<Seq<u8>>::empty());
    for i in 0..n
        invariant
            n == fields@.len(),
            extraction(doc.tree(), fields@.take(i as int), *disclosure) == Ok::<
                (Map<Seq<char>, JsonTree>, Seq<Seq<u8>>),
                Seq<char>,
            >((disclosed.view(), byte_lists(hashes@))),
    {
        let field = &fields[i];
        assert(fields@.take(i + 1).drop_last() =~= fields@.take(i as int));
        assert(fields@.take(i + 1).last() == fields@[i as int]);
        let path = field.json_path.as_str();
        let value = navigate_json_path(doc, path);
        if field.required && value.is_none() {
            let mut msg = concat3("required field '", field.name.as_str(), "' not found at path '");
            msg.append(path);
            msg.append("'");
            proof {
                lemma_extraction_error_sticks(doc.tree(), fields@, *disclosure, i as int + 1);
            }
            return Err(NotaryError::ExtractionFailed(msg));
        }
        if contains_string(&disclosure.disclosed_paths, path) {
            match value {
                Some(v) => {
                    disclosed.insert(field.name.clone(), v.copy());
                },
                None => {
                    disclosed.insert(field.name.clone(), JsonValue::Null);
                },
            }
        } else if contains_string(&disclosure.redacted_paths, path) {
            match value {
                Some(v) => {
                    let mut input: Vec<u8> = Vec::new();
                    append_bytes(&mut input, path.as_bytes());
                    input.push(0x3a);
                    write_json(&mut input, v);
                    assert(input@ =~= encode_utf8(path@) + seq![0x3au8] + tree_bytes(v.tree()));
                    let ghost before = hashes@;
                    hashes.push(sha512_hash(input.as_slice()));
                    assert(byte_lists(hashes@) =~= byte_lists(before).push(redaction_hash(path@, v.tree())));
                },
                None => {},
            }
        }
    }
    assert(fields@.take(n as int) =~= fields@);
    Ok((disclosed, hashes))
}

/// Once a prefix of the fields fails, every longer prefix fails the same way.
proof fn lemma_extraction_error_sticks(
    doc: JsonTree,
    fields: Seq<FieldDefinition>,
    mask: DisclosureMask,
    k: int,
)
    requires
        0 <= k <= fields.len(),
        extraction(doc, fields.take(k), mask) is Err,
    ensures
        extraction(doc, fields, mask) == extraction(doc, fields.take(k), mask),
    decreases fields.len() - k,
{
    if k < fields.len() {
        assert(fields.take(k + 1).drop_last() =~= fields.take(k));
        lemma_extraction_error_sticks(doc, fields, mask, k + 1);
    } else {
        assert(fields.take(k) =~= fields);
    }
}

/// Extract fields from a JSON response body according to template field
/// definitions and a disclosure mask. A body that does not parse is refused
/// with the parser's message.
pub fn extract_fields(
    response_body: &str,
    fields: &Vec<FieldDefinition>,
    disclosure: &DisclosureMask,
) -> (r: Result<ExtractedFields, NotaryError>)
    ensures
        match json_parse_of(response_body@) {
            Ok(doc) => extraction_matches(r, extraction(doc, fields@, *disclosure)),
            Err(e) => r matches Err(NotaryError::ExtractionFailed(msg)) && msg@ == "invalid JSON: "@
                + e,
        },
{
    match parse_json(response_body) {
        Ok(doc) => extract_from_document(&doc, fields, disclosure),
        Err(e) => Err(NotaryError::ExtractionFailed(crate::text::concat2("invalid JSON: ", e.as_str()))),
    }
}

/// The lifecycle states of a notary session.
#[derive(Debug, PartialEq, Eq)]
pub enum SessionState {
    /// Session created, ready to fetch.
    Initialized,
    /// Fetching the target server.
    Fetching,
    /// Response received, generating commitment.
    Committing,
    /// Proof signed and ready.
    Completed,
    /// Session failed, with the reason.
    Failed(String),
}

/// Whether a state ends the session's lifecycle (completed or failed).
pub open spec fn is_terminal(state: SessionState) -> bool {
    state is Completed || state is Failed
}

impl SessionState {
    /// Whether this state ends the session's lifecycle.
    pub fn is_finished(&self) -> (b: bool)
        ensures
            b == is_terminal(*self),
    {
        match self {
            SessionState::Completed => true,
            SessionState::Failed(_) => true,
            _ => false,
        }
    }

    /// The text of this state.
    pub open spec fn spec_text(&self) -> Seq<char> {
        match self {
            SessionState::Initialized => "initialized"@,
            SessionState::Fetching => "fetching"@,
            SessionState::Committing => "committing"@,
            SessionState::Completed => "completed"@,
            SessionState::Failed(reason) => "failed: "@ + reason@,
        }
    }

    /// The human-readable text of this state (for example "failed: timeout").
    pub fn text(&self) -> (t: String)
        ensures
            t@ == self.spec_text(),
    {
        match self {
            SessionState::Initialized => String::from_str("initialized"),
            SessionState::Fetching => String::from_str("fetching"),
            SessionState::Committing => String::from_str("committing"),
            SessionState::Completed => String::from_str("completed"),
            SessionState::Failed(reason) => crate::text::concat2("failed: ", reason.as_str()),
        }
    }

    /// A copy of this state.
    pub fn copy(&self) -> (s: SessionState)
        ensures
            s.spec_text() == self.spec_text(),
            is_terminal(s) == is_terminal(*self),
            s == *self,
    {
        match self {
            SessionState::Initialized => SessionState::Initialized,
            SessionState::Fetching => SessionState::Fetching,
            SessionState::Committing => SessionState::Committing,
            SessionState::Completed => SessionState::Completed,
            SessionState::Failed(reason) => SessionState::Failed(reason.clone()),
        }
    }
}

/// An active notarization session.
#[derive(Debug)]
pub struct NotarySession {
    /// Unique session identifier.
    pub id: String,
    /// Target server hostname.
    pub target_hostname: String,
    /// Template ID used for this session.
    pub template_id: String,
    /// Current state.
    pub state: SessionState,
    /// When the session was created.
    pub created_at: Timestamp,
    /// The raw response body (cleared after proof generation).
    pub response_body: Option<String>,
    /// The TLS certificate hash from the target server.
    pub certificate_hash: Option<Vec<u8>>,
    /// The generated session proof (set on completion).
    pub proof: Option<SessionProof>,
    /// The generated attestation (set on completion).
    pub attestation: Option<crate::types::Attestation>,
}

impl NotarySession {
    /// Whether `other` holds the same data as `self`.
    pub open spec fn same_as(&self, other: &NotarySession) -> bool {
        &&& other.id@ == self.id@
        &&& other.target_hostname@ == self.target_hostname@
        &&& other.template_id@ == self.template_id@
        &&& other.state == self.state
        &&& other.created_at == self.created_at
        &&& match (self.response_body, other.response_body) {
            (Some(a), Some(b)) => a@ == b@,
            (None, None) => true,
            _ => false,
        }
        &&& match (self.certificate_hash, other.certificate_hash) {
            (Some(a), Some(b)) => a@ == b@,
            (None, None) => true,
            _ => false,
        }
        &&& match (self.proof, other.proof) {
            (Some(a), Some(b)) => a.same_as(&b),
            (None, None) => true,
            _ => false,
        }
        &&& match (self.attestation, other.attestation) {
            (Some(a), Some(b)) => a.same_as(&b),
            (None, None) => true,
            _ => false,
        }
    }

    /// A copy of this session.
    pub fn copy(&self) -> (s: NotarySession)
        ensures
            self.same_as(&s),
    {
        NotarySession {
            id: self.id.clone(),
            target_hostname: self.target_hostname.clone(),
            template_id: self.template_id.clone(),
            state: self.state.copy(),
            created_at: self.created_at.copy(),
            response_body: match &self.response_body {
                Some(b) => Some(b.clone()),
                None => None,
            },
            certificate_hash: match &self.certificate_hash {
                Some(h) => Some(crate::types::copy_bytes(h)),
                None => None,
            },
            proof: match &self.proof {
                Some(p) => Some(p.copy()),
                None => None,
            },
            attestation: match &self.attestation {
                Some(a) => Some(a.copy()),
                None => None,
            },
        }
    }
}

/// Whether `x` is the session that `create` starts.
pub open spec fn is_new_session(
    x: NotarySession,
    id: Seq<char>,
    hostname: Seq<char>,
    template_id: Seq<char>,
    at: Timestamp,
) -> bool {
    &&& x.id@ == id
    &&& x.target_hostname@ == hostname
    &&& x.template_id@ == template_id
    &&& x.state == SessionState::Initialized
    &&& x.created_at == at
    &&& x.response_body is None
    &&& x.certificate_hash is None
    &&& x.proof is None
    &&& x.attestation is None
}

/// Whether no two sessions share an id.
pub open spec fn distinct_ids(s: Seq<NotarySession>) -> bool {
    forall|i: int, j: int| 0 <= i < j < s.len() ==> #[trigger] s[i].id@ != #[trigger] s[j].id@
}

/// The index of the session with the given id.
pub open spec fn find_session(s: Seq<NotarySession>, id: Seq<char>) -> Option<int>
    decreases s.len(),
{
    if s.len() == 0 {
        None
    } else {
        match find_session(s.drop_last(), id) {
            Some(i) => Some(i),
            None => if s.last().id@ == id {
                Some(s.len() - 1)
            } else {
                None
            },
        }
    }
}

/// `find_session` finds the first session with the id, if any.
pub proof fn lemma_find_session(s: Seq<NotarySession>, id: Seq<char>)
    ensures
        match find_session(s, id) {
            Some(i) => 0 <= i < s.len() && s[i].id@ == id && forall|j: int|
                0 <= j < i ==> s[j].id@ != id,
            None => forall|j: int| 0 <= j < s.len() ==> s[j].id@ != id,
        },
    decreases s.len(),
{
    if s.len() > 0 {
        lemma_find_session(s.drop_last(), id);
        assert forall|j: int| 0 <= j < s.len() - 1 implies s[j] == s.drop_last()[j] by {}
    }
}

/// Replacing the session found for an id by one with the same id keeps it
/// the session found.
pub proof fn lemma_find_session_update(s: Seq<NotarySession>, i: int, x: NotarySession, id: Seq<char>)
    requires
        find_session(s, id) == Some(i),
        x.id@ == id,
    ensures
        find_session(s.update(i, x), id) == Some(i),
{
    lemma_find_session(s, id);
    lemma_find_session(s.update(i, x), id);
    assert(s.update(i, x)[i].id@ == id);
    assert forall|j: int| 0 <= j < i implies s.update(i, x)[j].id@ != id by {
        assert(s.update(i, x)[j] == s[j]);
    }
}

/// The sessions that are neither completed nor failed, in order.
pub open spec fn live_sessions(s: Seq<NotarySession>) -> Seq<NotarySession>
    decreases s.len(),
{
    if s.len() == 0 {
        Seq::empty()
    } else if is_terminal(s[0].state) {
        live_sessions(s.drop_first())
    } else {
        seq![s[0]] + live_sessions(s.drop_first())
    }
}

/// Live sessions come from the given list and keep their ids distinct.
proof fn lemma_live_sessions(s: Seq<NotarySession>)
    ensures
        live_sessions(s).len() <= s.len(),
        forall|x: NotarySession| live_sessions(s).contains(x) ==> s.contains(x),
        distinct_ids(s) ==> distinct_ids(live_sessions(s)),
    decreases s.len(),
{
    if s.len() > 0 {
        let rest = s.drop_first();
        lemma_live_sessions(rest);
        assert forall|x: NotarySession| live_sessions(s).contains(x) implies s.contains(x) by {
            if x != s[0] {
                let k = choose|k: int| 0 <= k < live_sessions(s).len() && live_sessions(s)[k] == x;
                if !is_terminal(s[0].state) {
                    assert(live_sessions(s) == seq![s[0]] + live_sessions(rest));
                    assert(k >= 1);
                    assert(live_sessions(rest)[k - 1] == x);
                } else {
                    assert(live_sessions(s) == live_sessions(rest));
                }
                assert(live_sessions(rest).contains(x));
                assert(rest.contains(x));
                let j = choose|j: int| 0 <= j < rest.len() && rest[j] == x;
                assert(rest[j] == s[j + 1]);
                assert(s[j + 1] == x);
            } else {
                assert(s[0] == x);
            }
        }
        if distinct_ids(s) {
            assert(distinct_ids(rest)) by {
                assert forall|i: int, j: int| 0 <= i < j < rest.len() implies #[trigger] rest[i].id@
                    != #[trigger] rest[j].id@ by {
                    assert(rest[i] == s[i + 1] && rest[j] == s[j + 1]);
                }
            }
            if !is_terminal(s[0].state) {
                let l = live_sessions(s);
                assert forall|i: int, j: int| 0 <= i < j < l.len() implies #[trigger] l[i].id@
                    != #[trigger] l[j].id@ by {
                    assert(l == seq![s[0]] + live_sessions(rest));
                    if i == 0 {
                        assert(l[j] == live_sessions(rest)[j - 1]);
                        assert(live_sessions(rest).contains(l[j]));
                        assert(rest.contains(l[j]));
                        let k = choose|k: int| 0 <= k < rest.len() && rest[k] == l[j];
                        assert(rest[k] == s[k + 1]);
                        assert(s[k + 1] == l[j]);
                        assert(s[0].id@ != s[k + 1].id@);
                    } else {
                        assert(l[i] == live_sessions(rest)[i - 1]);
                        assert(l[j] == live_sessions(rest)[j - 1]);
                    }
                }
            }
        }
    }
}

/// The sessions left after evicting the finished ones from `s[start..]`
/// while keeping `s[..start]`.
spec fn evicted_from(s: Seq<NotarySession>, start: int) -> Seq<NotarySession> {
    s.take(start) + live_sessions(s.skip(start))
}

/// The sessions after `create` has made room for a new one: when the store
/// is full, the finished sessions are evicted.
pub open spec fn sessions_after_eviction(s: Seq<NotarySession>, max_sessions: nat) -> Seq<NotarySession> {
    if s.len() >= max_sessions {
        live_sessions(s)
    } else {
        s
    }
}

/// The outcome of creating a session with id `id` at time `at`: after
/// eviction, a store that is still full refuses with `TooManySessions`;
/// otherwise the new session is stored under its id (replacing a session with
/// the same id) and its id is returned.
pub open spec fn create_outcome(
    old_sessions: Seq<NotarySession>,
    max_sessions: nat,
    hostname: Seq<char>,
    template_id: Seq<char>,
    id: Seq<char>,
    at: Timestamp,
    new_sessions: Seq<NotarySession>,
    r: Result<String, NotaryError>,
) -> bool {
    let kept = sessions_after_eviction(old_sessions, max_sessions);
    if kept.len() >= max_sessions {
        &&& r matches Err(NotaryError::TooManySessions(n)) && n == max_sessions
        &&& new_sessions == kept
    } else {
        &&& r matches Ok(rid) && rid@ == id
        &&& match find_session(kept, id) {
            Some(i) => new_sessions.len() == kept.len() && new_sessions == kept.update(
                i,
                new_sessions[i],
            ) && is_new_session(new_sessions[i], id, hostname, template_id, at),
            None => new_sessions.len() == kept.len() + 1 && new_sessions.drop_last() == kept
                && is_new_session(new_sessions.last(), id, hostname, template_id, at),
        }
    }
}

/// Whether `c` is a lowercase hexadecimal digit.
pub open spec fn is_lower_hex_digit(c: char) -> bool {
    ('0' <= c <= '9') || ('a' <= c <= 'f')
}

/// Whether `s` is the hyphenated lowercase text of a random (version 4) UUID:
/// 32 lowercase hexadecimal digits in groups of 8, 4, 4, 4 and 12 separated by
/// hyphens, with version digit `4` and a variant digit among `8`, `9`, `a`, `b`.
pub open spec fn is_uuid_v4_text(s: Seq<char>) -> bool {
    &&& s.len() == 36
    &&& forall|i: int|
        0 <= i < 36 ==> if i == 8 || i == 13 || i == 18 || i == 23 {
            s[i] == '-'
        } else {
            is_lower_hex_digit(#[trigger] s[i])
        }
    &&& s[14] == '4'
    &&& (s[19] == '8' || s[19] == '9' || s[19] == 'a' || s[19] == 'b')
}

/// A fresh random session identifier.
///
/// Trusted: calls `uuid::Uuid::new_v4` and formats it with `to_string`. The
/// text is the hyphenated lowercase form of a version 4 UUID (its `Display`
/// writes `LowerHex`, and `new_v4` sets the version and variant bits); which
/// random value it holds is not stated.
#[verifier::external_body]
pub(crate) fn new_session_id() -> (id: String)
    ensures
        is_uuid_v4_text(id@),
{
    uuid::Uuid::new_v4().to_string()
}

/// A store of notary sessions with a fixed capacity. Sessions are kept
/// in creation order; each id occurs once.
#[derive(Debug)]
pub struct SessionStore {
    sessions: Vec<NotarySession>,
    max_sessions: usize,
}

impl SessionStore {
    #[verifier::type_invariant]
    pub(crate) closed spec fn inv(self) -> bool {
        &&& distinct_ids(self.sessions@)
        &&& self.sessions@.len() <= self.max_sessions
    }

    /// What the type invariant says of the sessions held.
    pub(crate) proof fn lemma_inv(self)
        requires
            self.inv(),
        ensures
            self.sessions().len() <= self.capacity(),
            distinct_ids(self.sessions()),
    {
    }

    /// The sessions held, in creation order.
    pub closed spec fn sessions(&self) -> Seq<NotarySession> {
        self.sessions@
    }

    /// The capacity this store was created with.
    pub closed spec fn capacity(&self) -> nat {
        self.max_sessions as nat
    }

    /// Create a new session store with the given capacity.
    pub fn new(max_sessions: usize) -> (store: Self)
        ensures
            store.sessions() == Seq::<NotarySession>::empty(),
            store.capacity() == max_sessions,
    {
        SessionStore { sessions: Vec::new(), max_sessions }
    }

    /// Remove every finished session.
    fn evict_finished(&mut self)
        ensures
            final(self).sessions() == live_sessions(old(self).sessions()),
            final(self).capacity() == old(self).capacity(),
    {
        proof {
            use_type_invariant(&*self);
        }
        let mut v: Vec<NotarySession> = Vec::new();
        std::mem::swap(&mut v, &mut self.sessions);
        let ghost s = v@;
        let mut i = v.len();
        assert(s.skip(s.len() as int) =~= Seq::<NotarySession>::empty());
        assert(s.take(s.len() as int) =~= s);
        while i > 0
            invariant
                i <= s.len(),
                v@ == evicted_from(s, i as int),
            decreases i,
        {
            i = i - 1;
            assert(s.skip(i as int).drop_first() =~= s.skip(i + 1));
            assert(s.skip(i as int)[0] == s[i as int]);
            assert(s.take(i + 1) =~= s.take(i as int).push(s[i as int]));
            if v[i].state.is_finished() {
                let _ = v.remove(i);
                assert(v@ =~= evicted_from(s, i as int));
            } else {
                assert(v@ =~= evicted_from(s, i as int));
            }
        }
        assert(s.skip(0) =~= s);
        assert(v@ =~= live_sessions(s));
        proof {
            lemma_live_sessions(s);
        }
        self.sessions = v;
    }

    /// Create a new session with the given id at the given time. When the
    /// store is full, finished sessions are evicted first; a store that is
    /// still full refuses with `TooManySessions`.
    pub fn create_at(
        &mut self,
        target_hostname: String,
        template_id: String,
        id: String,
        at: Timestamp,
    ) -> (r: Result<String, NotaryError>)
        ensures
            create_outcome(
                old(self).sessions(),
                old(self).capacity(),
                target_hostname@,
                template_id@,
                id@,
                at,
                final(self).sessions(),
                r,
            ),
            final(self).capacity() == old(self).capacity(),
            final(self).sessions().len() <= final(self).capacity(),
            distinct_ids(final(self).sessions()),
    {
        proof {
            use_type_invariant(&*self);
        }
        if self.sessions.len() >= self.max_sessions {
            self.evict_finished();
            if self.sessions.len() >= self.max_sessions {
                proof {
                    use_type_invariant(&*self);
                }
                return Err(NotaryError::TooManySessions(self.max_sessions));
            }
        }
        proof {
            use_type_invariant(&*self);
            lemma_find_session(self.sessions@, id@);
        }
        let ghost kept = self.sessions@;
        let returned = id.clone();
        let session = NotarySession {
            id,
            target_hostname,
            template_id,
            state: SessionState::Initialized,
            created_at: at,
            response_body: None,
            certificate_hash: None,
            proof: None,
            attestation: None,
        };
        let mut v: Vec<NotarySession> = Vec::new();
        std::mem::swap(&mut v, &mut self.sessions);
        match self.position(&v, returned.as_str()) {
            Some(i) => {
                let _ = v.remove(i);
                v.insert(i, session);
                proof {
                    assert(v@ =~= kept.update(i as int, v@[i as int]));
                    assert forall|a: int, b: int| 0 <= a < b < v@.len() implies #[trigger] v@[a].id@
                        != #[trigger] v@[b].id@ by {
                        if a != i && b != i {
                            assert(v@[a] == kept[a] && v@[b] == kept[b]);
                        } else if a == i {
                            assert(v@[b] == kept[b]);
                        } else {
                            assert(v@[a] == kept[a]);
                        }
                    }
                }
            },
            None => {
                v.push(session);
                proof {
                    assert(v@.drop_last() =~= kept);
                    assert forall|a: int, b: int| 0 <= a < b < v@.len() implies #[trigger] v@[a].id@
                        != #[trigger] v@[b].id@ by {
                        assert(v@[a] == kept[a]);
                        if b < kept.len() {
                            assert(v@[b] == kept[b]);
                        }
                    }
                }
            },
        }
        self.sessions = v;
        Ok(returned)
    }

    /// The index of the session with the given id.
    fn position(&self, v: &Vec<NotarySession>, id: &str) -> (at: Option<usize>)
        ensures
            match at {
                Some(i) => find_session(v@, id@) == Some(i as int),
                None => find_session(v@, id@) is None,
            },
    {
        proof {
            lemma_find_session(v@, id@);
        }
        for i in 0..v.len()
            invariant
                forall|j: int| 0 <= j < i ==> v@[j].id@ != id@,
        {
            if crate::json::str_eq(v[i].id.as_str(), id) {
                proof {
                    lemma_find_session(v@, id@);
                }
                return Some(i);
            }
        }
        None
    }

    /// Get a copy of the session with the given ID.
    pub fn get(&self, id: &str) -> (r: Result<NotarySession, NotaryError>)
        ensures
            self.sessions().len() <= self.capacity(),
            distinct_ids(self.sessions()),
            match find_session(self.sessions(), id@) {
                Some(i) => r matches Ok(x) && self.sessions()[i].same_as(&x),
                None => r matches Err(NotaryError::SessionNotFound(m)) && m@ == id@,
            },
    {
        proof {
            use_type_invariant(self);
            lemma_find_session(self.sessions@, id@);
        }
        match self.position(&self.sessions, id) {
            Some(i) => {
                let c = self.sessions[i].copy();
                assert(find_session(self.sessions@, id@) == Some(i as int));
                assert(self.sessions@[i as int].same_as(&c));
                Ok(c)
            },
            None => Err(NotaryError::SessionNotFound(String::from_str(id))),
        }
    }

    /// Take the session at index `i` out of the store.
    fn take_session(&mut self, i: usize) -> (x: NotarySession)
        requires
            i < old(self).sessions().len(),
        ensures
            x == old(self).sessions()[i as int],
            final(self).sessions() == old(self).sessions().remove(i as int),
            final(self).capacity() == old(self).capacity(),
    {
        proof {
            use_type_invariant(&*self);
        }
        let mut v: Vec<NotarySession> = Vec::new();
        std::mem::swap(&mut v, &mut self.sessions);
        let ghost before = v@;
        let x = v.remove(i);
        proof {
            assert forall|a: int, b: int| 0 <= a < b < v@.len() implies #[trigger] v@[a].id@
                != #[trigger] v@[b].id@ by {
                let a0 = if a < i { a } else { a + 1 };
                let b0 = if b < i { b } else { b + 1 };
                assert(v@[a] == before[a0] && v@[b] == before[b0]);
            }
        }
        self.sessions = v;
        x
    }

    /// Put a session back at index `i`, where a session with the same id stood.
    fn put_session(&mut self, i: usize, x: NotarySession, Ghost(before): Ghost<Seq<NotarySession>>)
        requires
            i < before.len(),
            distinct_ids(before),
            before.len() <= old(self).capacity(),
            old(self).sessions() == before.remove(i as int),
            x.id@ == before[i as int].id@,
        ensures
            final(self).sessions() == before.update(i as int, x),
            final(self).capacity() == old(self).capacity(),
    {
        let mut v: Vec<NotarySession> = Vec::new();
        std::mem::swap(&mut v, &mut self.sessions);
        v.insert(i, x);
        proof {
            assert(v@ =~= before.update(i as int, x));
            assert forall|a: int, b: int| 0 <= a < b < v@.len() implies #[trigger] v@[a].id@
                != #[trigger] v@[b].id@ by {
                assert(v@[a].id@ == before[a].id@ && v@[b].id@ == before[b].id@);
            }
        }
        self.sessions = v;
    }

    /// Update a session's state.
    pub fn update_state(&mut self, id: &str, state: SessionState) -> (r: Result<(), NotaryError>)
        ensures
            final(self).capacity() == old(self).capacity(),
            final(self).sessions().len() <= final(self).capacity(),
            distinct_ids(final(self).sessions()),
            match find_session(old(self).sessions(), id@) {
                Some(i) => r is Ok && final(self).sessions() == old(self).sessions().update(
                    i,
                    final(self).sessions()[i],
                ) && final(self).sessions()[i] == (NotarySession {
                    state,
                    ..old(self).sessions()[i]
                }),
                None => r matches Err(NotaryError::SessionNotFound(m)) && m@ == id@
                    && final(self).sessions() == old(self).sessions(),
            },
    {
        proof {
            use_type_invariant(&*self);
        }
        proof {
            lemma_find_session(self.sessions@, id@);
        }
        match self.position(&self.sessions, id) {
            Some(i) => {
                let ghost before = self.sessions@;
                let mut x = self.take_session(i);
                x.state = state;
                self.put_session(i, x, Ghost(before));
                proof {
                    use_type_invariant(&*self);
                }
                Ok(())
            },
            None => Err(NotaryError::SessionNotFound(String::from_str(id))),
        }
    }

    /// Store the fetch result in a session.
    pub fn store_response(&mut self, id: &str, body: String, cert_hash: Vec<u8>) -> (r: Result<
        (),
        NotaryError,
    >)
        ensures
            final(self).capacity() == old(self).capacity(),
            final(self).sessions().len() <= final(self).capacity(),
            distinct_ids(final(self).sessions()),
            match find_session(old(self).sessions(), id@) {
                Some(i) => r is Ok && final(self).sessions() == old(self).sessions().update(
                    i,
                    final(self).sessions()[i],
                ) && final(self).sessions()[i] == (NotarySession {
                    response_body: Some(body),
                    certificate_hash: Some(cert_hash),
                    ..old(self).sessions()[i]
                }),
                None => r matches Err(NotaryError::SessionNotFound(m)) && m@ == id@
                    && final(self).sessions() == old(self).sessions(),
            },
    {
        proof {
            use_type_invariant(&*self);
        }
        proof {
            lemma_find_session(self.sessions@, id@);
        }
        match self.position(&self.sessions, id) {
            Some(i) => {
                let ghost before = self.sessions@;
                let mut x = self.take_session(i);
                x.response_body = Some(body);
                x.certificate_hash = Some(cert_hash);
                self.put_session(i, x, Ghost(before));
                proof {
                    use_type_invariant(&*self);
                }
                Ok(())
            },
            None => Err(NotaryError::SessionNotFound(String::from_str(id))),
        }
    }

    /// Store the completed proof and attestation, clear the raw response and
    /// mark the session completed.
    pub fn store_proof(
        &mut self,
        id: &str,
        proof: SessionProof,
        attestation: crate::types::Attestation,
    ) -> (r: Result<(), NotaryError>)
        ensures
            final(self).capacity() == old(self).capacity(),
            final(self).sessions().len() <= final(self).capacity(),
            distinct_ids(final(self).sessions()),
            match find_session(old(self).sessions(), id@) {
                Some(i) => r is Ok && final(self).sessions() == old(self).sessions().update(
                    i,
                    final(self).sessions()[i],
                ) && final(self).sessions()[i] == (NotarySession {
                    proof: Some(proof),
                    attestation: Some(attestation),
                    response_body: None,
                    state: SessionState::Completed,
                    ..old(self).sessions()[i]
                }),
                None => r matches Err(NotaryError::SessionNotFound(m)) && m@ == id@
                    && final(self).sessions() == old(self).sessions(),
            },
    {
        proof {
            use_type_invariant(&*self);
        }
        proof {
            lemma_find_session(self.sessions@, id@);
        }
        match self.position(&self.sessions, id) {
            Some(i) => {
                let ghost before = self.sessions@;
                let mut x = self.take_session(i);
                x.proof = Some(proof);
                x.attestation = Some(attestation);
                x.response_body = None;
                x.state = SessionState::Completed;
                self.put_session(i, x, Ghost(before));
                proof {
                    use_type_invariant(&*self);
                }
                Ok(())
            },
            None => Err(NotaryError::SessionNotFound(String::from_str(id))),
        }
    }

    /// Count the active (neither completed nor failed) sessions.
    pub fn active_count(&self) -> (n: usize)
        ensures
            n == live_sessions(self.sessions()).len(),
            self.sessions().len() <= self.capacity(),
            distinct_ids(self.sessions()),
    {
        proof {
            use_type_invariant(self);
        }
        let ghost s = self.sessions@;
        let mut count: usize = 0;
        let n = self.sessions.len();
        let mut i = n;
        assert(s.skip(n as int) =~= Seq::<NotarySession>::empty());
        while i > 0
            invariant
                n == s.len(),
                s == self.sessions@,
                i <= n,
                count == live_sessions(s.skip(i as int)).len(),
                count <= n - i,
            decreases i,
        {
            i = i - 1;
            assert(s.skip(i as int).drop_first() =~= s.skip(i + 1));
            assert(s.skip(i as int)[0] == s[i as int]);
            if !self.sessions[i].state.is_finished() {
                count = count + 1;
            }
        }
        assert(s.skip(0) =~= s);
        count
    }

    /// Create a new session with a fresh random id, stamped with the current
    /// time. Returns the session id.
    pub fn create(&mut self, target_hostname: String, template_id: String) -> (r: Result<
        String,
        NotaryError,
    >)
        ensures
            exists|id: Seq<char>, at: Timestamp|
                at.wf() && is_uuid_v4_text(id) && create_outcome(
                    old(self).sessions(),
                    old(self).capacity(),
                    target_hostname@,
                    template_id@,
                    id,
                    at,
                    final(self).sessions(),
                    r,
                ),
            final(self).capacity() == old(self).capacity(),
            final(self).sessions().len() <= final(self).capacity(),
            distinct_ids(final(self).sessions()),
    {
        let id = new_session_id();
        let at = now();
        let ghost id_view = id@;
        let r = self.create_at(target_hostname, template_id, id, at);
        assert(at.wf() && is_uuid_v4_text(id_view) && create_outcome(
            old(self).sessions(),
            old(self).capacity(),
            target_hostname@,
            template_id@,
            id_view,
            at,
            self.sessions(),
            r,
        ));
        r
    }
}

} // verus!
