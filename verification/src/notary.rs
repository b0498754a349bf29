//! The notary service's decisions: configuration, the info endpoint, request
//! checks, target request details, and assembling the signed result.

use vstd::prelude::*;
use vstd::utf8::encode_utf8;

use crate::digest::{hex_encode, hex_lower, sha512_hash, sha512_of};
use crate::error::NotaryError;
use crate::json::{json_parse_of, JsonTree, JsonValue};
use crate::keys::NotaryKeyPair;
use crate::session::{
    byte_lists, create_outcome, extract_fields, extraction, find_session, generate_proof_at,
    is_generated_proof, is_uuid_v4_text, lemma_find_session, lemma_find_session_update,
    new_session_id,
    NotarySession, SessionState, SessionStore,
};
use crate::templates::{first_with_id, TemplateRegistry, VerificationTemplate};
use crate::text::{concat2, concat3, contains_seq, decimal, decimal_of, str_contains};
use crate::time::{now, Timestamp, MAX_UNIX_SECS};
use crate::types::{
    contains_string, copy_bytes, strings_contain, Attestation, DisclosureMask, SessionProof,
};

verus! {

/// Configuration for the notary service.
#[derive(Debug)]
pub struct NotaryConfig {
    /// Maximum concurrent sessions.
    pub max_concurrent_sessions: usize,
    /// Session timeout in seconds.
    pub session_timeout_secs: u64,
    /// Allowlisted hostnames (empty = allow all).
    pub allowed_hostnames: Vec<String>,
    /// Listen address.
    pub listen_addr: String,
}

impl Default for NotaryConfig {
    fn default() -> (c: Self)
        ensures
            c.max_concurrent_sessions == 100,
            c.session_timeout_secs == 300,
            c.allowed_hostnames@.len() == 0,
            c.listen_addr@ == "127.0.0.1:7443"@,
    {
        NotaryConfig {
            max_concurrent_sessions: 100,
            session_timeout_secs: 300,
            allowed_hostnames: Vec::new(),
            listen_addr: String::from_str("127.0.0.1:7443"),
        }
    }
}

/// The notary's name, as reported by the info endpoint.
pub open spec fn notary_name() -> Seq<char> {
    "PlausiDen zkTLS Notary"@
}

/// Notary info response.
#[derive(Debug)]
pub struct NotaryInfoResponse {
    /// The notary's public key (hex-encoded).
    pub public_key: String,
    /// Notary name.
    pub name: String,
    /// Available template IDs.
    pub templates: Vec<String>,
    /// Active session count.
    pub active_sessions: usize,
}

/// Error response body.
#[derive(Debug)]
pub struct ErrorResponse {
    /// The error text.
    pub error: String,
}

/// A refusal by the notary service: an HTTP status code and the error body.
#[derive(Debug)]
pub struct HttpFailure {
    /// HTTP status code.
    pub status: u16,
    /// The response body.
    pub body: ErrorResponse,
}

/// Build a refusal.
pub fn failure(status: u16, error: String) -> (f: HttpFailure)
    ensures
        f.status == status,
        f.body.error@ == error@,
{
    HttpFailure { status, body: ErrorResponse { error } }
}

/// The info endpoint's answer: the notary's public key in hex, its name, the
/// registered template ids and the number of active sessions.
pub fn notary_info(
    keypair: &NotaryKeyPair,
    templates: &TemplateRegistry,
    active_sessions: usize,
) -> (info: NotaryInfoResponse)
    ensures
        info.public_key@ == hex_lower(keypair.public_key()),
        info.name@ == notary_name(),
        info.templates@.len() == templates.view().len(),
        forall|i: int|
            0 <= i < info.templates@.len() ==> #[trigger] info.templates@[i]@ == templates.view()[i].id@,
        info.active_sessions == active_sessions,
{
    let key = keypair.public_key_bytes();
    let public_key = hex_encode(key.as_slice());
    let ids = templates.list_ids();
    let mut names: Vec<String> = Vec::new();
    for i in 0..ids.len()
        invariant
            ids@.len() == templates.view().len(),
            forall|j: int| 0 <= j < ids@.len() ==> #[trigger] ids@[j]@ == templates.view()[j].id@,
            names@.len() == i,
            forall|j: int| 0 <= j < i ==> #[trigger] names@[j]@ == templates.view()[j].id@,
    {
        names.push(String::from_str(ids[i]));
    }
    NotaryInfoResponse {
        public_key,
        name: String::from_str("PlausiDen zkTLS Notary"),
        templates: names,
        active_sessions,
    }
}

/// Which template a notarization request may use: the index of the first
/// template with the id, or the refusal's status and text: 404 when no
/// template has the id, 403 when an allowlist is configured and does not hold
/// the template's hostname.
pub open spec fn selection(
    templates: Seq<VerificationTemplate>,
    allowed_hostnames: Seq<String>,
    template_id: Seq<char>,
) -> Result<int, (u16, Seq<char>)> {
    match first_with_id(templates, template_id) {
        None => Err((404u16, "template not found: "@ + template_id)),
        Some(i) => if allowed_hostnames.len() != 0 && !strings_contain(
            allowed_hostnames,
            templates[i].target.hostname@,
        ) {
            Err((403u16, "hostname not allowed: "@ + templates[i].target.hostname@))
        } else {
            Ok(i)
        },
    }
}

/// The template a notarization request names, or the refusal.
pub fn select_template<'a>(
    templates: &'a TemplateRegistry,
    allowed_hostnames: &Vec<String>,
    template_id: &str,
) -> (r: Result<&'a VerificationTemplate, HttpFailure>)
    ensures
        match selection(templates.view(), allowed_hostnames@, template_id@) {
            Err((status, text)) => r matches Err(f) && f.status == status && f.body.error@ == text,
            Ok(i) => r == Ok::<&VerificationTemplate, HttpFailure>(&templates.view()[i]),
        },
{
    match templates.get(template_id) {
        None => Err(failure(404, concat2("template not found: ", template_id))),
        Some(template) => {
            if allowed_hostnames.len() != 0 && !contains_string(
                allowed_hostnames,
                template.target.hostname.as_str(),
            ) {
                Err(failure(403, concat2("hostname not allowed: ", template.target.hostname.as_str())))
            } else {
                Ok(template)
            }
        },
    }
}

/// The refusal when no session can be created (503 with the error's text).
pub fn session_unavailable(e: &NotaryError) -> (f: HttpFailure)
    ensures
        f.status == 503,
        f.body.error@ == e.spec_message(),
{
    failure(503, e.message())
}

/// The URL fetched for a template's target.
pub fn target_url(hostname: &str, path: &str) -> (url: String)
    ensures
        url@ == "https://"@ + hostname@ + path@,
{
    concat3("https://", hostname, path)
}

/// The delay before fetching, in milliseconds, from a hash of the session id:
/// between 1000 and 4999.
pub fn jitter_ms(session_hash: u64) -> (ms: u64)
    ensures
        ms == session_hash % 4000 + 1000,
        1000 <= ms < 5000,
{
    session_hash % 4000 + 1000
}

/// The browser User-Agent strings rotated across requests.
pub open spec fn user_agent(i: int) -> Seq<char> {
    if i == 0 {
        "Mozilla/5.0 (Windows NT 10.0; Win64; x64) AppleWebKit/537.36 (KHTML, like Gecko) Chrome/131.0.0.0 Safari/537.36"@
    } else if i == 1 {
        "Mozilla/5.0 (Macintosh; Intel Mac OS X 10_15_7) AppleWebKit/537.36 (KHTML, like Gecko) Chrome/131.0.0.0 Safari/537.36"@
    } else if i == 2 {
        "Mozilla/5.0 (Windows NT 10.0; Win64; x64; rv:133.0) Gecko/20100101 Firefox/133.0"@
    } else if i == 3 {
        "Mozilla/5.0 (Macintosh; Intel Mac OS X 10_15_7) AppleWebKit/605.1.15 (KHTML, like Gecko) Version/18.2 Safari/605.1.15"@
    } else {
        "Mozilla/5.0 (X11; Linux x86_64) AppleWebKit/537.36 (KHTML, like Gecko) Chrome/131.0.0.0 Safari/537.36"@
    }
}

/// The User-Agent for the request with the given sequence number: the five
/// browser strings are used in turn.
pub fn browser_user_agent(counter: usize) -> (ua: &'static str)
    ensures
        ua@ == user_agent(counter as int % 5),
{
    let i = counter % 5;
    if i == 0 {
        "Mozilla/5.0 (Windows NT 10.0; Win64; x64) AppleWebKit/537.36 (KHTML, like Gecko) Chrome/131.0.0.0 Safari/537.36"
    } else if i == 1 {
        "Mozilla/5.0 (Macintosh; Intel Mac OS X 10_15_7) AppleWebKit/537.36 (KHTML, like Gecko) Chrome/131.0.0.0 Safari/537.36"
    } else if i == 2 {
        "Mozilla/5.0 (Windows NT 10.0; Win64; x64; rv:133.0) Gecko/20100101 Firefox/133.0"
    } else if i == 3 {
        "Mozilla/5.0 (Macintosh; Intel Mac OS X 10_15_7) AppleWebKit/605.1.15 (KHTML, like Gecko) Version/18.2 Safari/605.1.15"
    } else {
        "Mozilla/5.0 (X11; Linux x86_64) AppleWebKit/537.36 (KHTML, like Gecko) Chrome/131.0.0.0 Safari/537.36"
    }
}

/// The client hints (`sec-ch-ua`, `sec-ch-ua-platform`) consistent with a
/// User-Agent: Chrome 131 names its platform among Windows, macOS and Linux,
/// Firefox among Windows and Linux, and anything else is Safari on macOS.
pub open spec fn client_hints_for(ua: Seq<char>) -> (Seq<char>, Seq<char>) {
    if contains_seq(ua, "Chrome/131"@) {
        (
            "\"Chromium\";v=\"131\", \"Not_A Brand\";v=\"24\", \"Google Chrome\";v=\"131\""@,
            if contains_seq(ua, "Windows"@) {
                "\"Windows\""@
            } else if contains_seq(ua, "Macintosh"@) {
                "\"macOS\""@
            } else {
                "\"Linux\""@
            },
        )
    } else if contains_seq(ua, "Firefox"@) {
        (
            "\"Firefox\";v=\"133\""@,
            if contains_seq(ua, "Windows"@) {
                "\"Windows\""@
            } else {
                "\"Linux\""@
            },
        )
    } else {
        ("\"Safari\";v=\"18\""@, "\"macOS\""@)
    }
}

/// The client hints sent with a POST request made with User-Agent `ua`.
pub fn client_hints(ua: &str) -> (hints: (&'static str, &'static str))
    ensures
        (hints.0@, hints.1@) == client_hints_for(ua@),
{
    if str_contains(ua, "Chrome/131") {
        let platform = if str_contains(ua, "Windows") {
            "\"Windows\""
        } else if str_contains(ua, "Macintosh") {
            "\"macOS\""
        } else {
            "\"Linux\""
        };
        ("\"Chromium\";v=\"131\", \"Not_A Brand\";v=\"24\", \"Google Chrome\";v=\"131\"", platform)
    } else if str_contains(ua, "Firefox") {
        let platform = if str_contains(ua, "Windows") {
            "\"Windows\""
        } else {
            "\"Linux\""
        };
        ("\"Firefox\";v=\"133\"", platform)
    } else {
        ("\"Safari\";v=\"18\"", "\"macOS\"")
    }
}

/// The `Origin` header of a POST request to `hostname`.
pub fn request_origin(hostname: &str) -> (origin: String)
    ensures
        origin@ == "https://"@ + hostname@,
{
    concat2("https://", hostname)
}

/// The `Referer` header of a POST request to `hostname` (its root page).
pub fn request_referer(hostname: &str) -> (referer: String)
    ensures
        referer@ == "https://"@ + hostname@ + "/"@,
{
    concat3("https://", hostname, "/")
}

/// Whether an HTTP status code is a success (2xx).
pub open spec fn is_success_status(status: u16) -> bool {
    200 <= status <= 299
}

/// Whether the target's HTTP status lets the notarization go on (2xx).
pub fn target_status_ok(status: u16) -> (ok: bool)
    ensures
        ok == is_success_status(status),
{
    200 <= status && status <= 299
}

/// The error text for a target that answered with a non-success status: it
/// names the status, template, final URL and body length, never the body.
pub open spec fn refusal_text(
    status: u16,
    template_id: Seq<char>,
    url: Seq<char>,
    body_bytes: usize,
) -> Seq<char> {
    "target returned HTTP "@ + decimal_of(status as nat) + " for template="@ + template_id
        + " url="@ + url + " body_bytes="@ + decimal_of(body_bytes as nat)
}

/// Build the error text for a target that answered with a non-success status.
pub fn refusal_message(status: u16, template_id: &str, url: &str, body_bytes: usize) -> (msg: String)
    ensures
        msg@ == refusal_text(status, template_id@, url@, body_bytes),
{
    let code = decimal(status as u64);
    let mut msg = concat3("target returned HTTP ", code.as_str(), " for template=");
    msg.append(template_id);
    msg.append(" url=");
    msg.append(url);
    msg.append(" body_bytes=");
    let count = decimal(body_bytes as u64);
    msg.append(count.as_str());
    msg
}

/// The certificate hash recorded in trusted-fetch mode: the SHA-512 of
/// `tls-cert:` followed by the hostname.
pub fn certificate_stand_in(hostname: &str) -> (hash: Vec<u8>)
    ensures
        hash@ == sha512_of(encode_utf8("tls-cert:"@ + hostname@)),
        hash@.len() == 64,
{
    let text = concat2("tls-cert:", hostname);
    sha512_hash(text.as_str().as_bytes())
}

/// Seconds in the thirty days for which an attestation stays valid.
pub const ATTESTATION_LIFETIME_SECS: i64 = 2_592_000i64;

/// Whether `a` is the attestation made for a notarization: id `att-` and a
/// random id, the template's claim type and id, the session id, the extracted
/// fields and hashes, created at `created_at` and expiring thirty days later.
pub open spec fn is_notarized_attestation(
    a: Attestation,
    id_suffix: Seq<char>,
    template: VerificationTemplate,
    session_id: Seq<char>,
    disclosed: Map<Seq<char>, JsonTree>,
    hashes: Seq<Seq<u8>>,
    created_at: Timestamp,
) -> bool {
    &&& a.id@ == "att-"@ + id_suffix
    &&& a.claim_type@ == template.claim_type@
    &&& a.session_proof_id@ == session_id
    &&& a.disclosed_fields.view() == disclosed
    &&& byte_lists(a.redacted_field_hashes@) == hashes
    &&& a.template_id@ == template.id@
    &&& a.created_at == created_at
    &&& a.expires_at == Some(
        Timestamp { secs: (created_at.secs + ATTESTATION_LIFETIME_SECS) as i64, nanos: created_at.nanos },
    )
}

/// Whether thirty days after `t` is still a representable time.
pub open spec fn lifetime_fits(t: Timestamp) -> bool {
    t.secs + ATTESTATION_LIFETIME_SECS <= MAX_UNIX_SECS
}

/// The disclosure mask of a request: its own, or the template's default.
pub open spec fn chosen_mask(
    disclosure: Option<DisclosureMask>,
    template: VerificationTemplate,
) -> DisclosureMask {
    match disclosure {
        Some(m) => m,
        None => template.default_disclosure,
    }
}

/// The outcome of completing a notarization whose response has been fetched:
/// the fields are extracted with the request's disclosure mask (or the
/// template's default) and a refusal is 422 with the extraction error's text;
/// an attestation whose thirty days would end past the last representable
/// time is refused with 500; otherwise the proof over the body and the
/// attestation are returned.
pub open spec fn completion_outcome(
    template: VerificationTemplate,
    mask: DisclosureMask,
    response_body: Seq<char>,
    seed: Seq<u8>,
    session_id: Seq<char>,
    proof_at: Timestamp,
    attestation_suffix: Seq<char>,
    created_at: Timestamp,
    r: Result<(SessionProof, Attestation), HttpFailure>,
) -> bool {
    let cert_hash = sha512_of(encode_utf8("tls-cert:"@ + template.target.hostname@));
    match json_parse_of(response_body) {
        Err(e) => r matches Err(f) && f.status == 422 && f.body.error@
            == "field extraction failed: "@ + ("invalid JSON: "@ + e),
        Ok(doc) => match extraction(doc, template.fields@, mask) {
            Err(msg) => r matches Err(f) && f.status == 422 && f.body.error@
                == "field extraction failed: "@ + msg,
            Ok((disclosed, hashes)) => if !lifetime_fits(created_at) {
                r matches Err(f) && f.status == 500 && f.body.error@
                    == "attestation expiry out of range"@
            } else {
                r matches Ok((proof, attestation)) && is_generated_proof(
                    proof,
                    template.target.hostname@,
                    response_body,
                    cert_hash,
                    seed,
                    proof_at,
                ) && is_notarized_attestation(
                    attestation,
                    attestation_suffix,
                    template,
                    session_id,
                    disclosed,
                    hashes,
                    created_at,
                )
            },
        },
    }
}

/// Complete a notarization after the fetch: extract the fields, generate the
/// proof at `proof_at`, and build the attestation created at `created_at`.
pub fn complete_notarization(
    template: &VerificationTemplate,
    disclosure: Option<DisclosureMask>,
    response_body: &str,
    keypair: &NotaryKeyPair,
    session_id: &str,
    proof_at: &Timestamp,
    attestation_suffix: &str,
    created_at: &Timestamp,
) -> (r: Result<(SessionProof, Attestation), HttpFailure>)
    requires
        proof_at.wf(),
        created_at.wf(),
    ensures
        completion_outcome(
            *template,
            chosen_mask(disclosure, *template),
            response_body@,
            keypair.secret_seed(),
            session_id@,
            *proof_at,
            attestation_suffix@,
            *created_at,
            r,
        ),
{
    let mask: &DisclosureMask = match &disclosure {
        Some(m) => m,
        None => &template.default_disclosure,
    };
    let cert_hash = certificate_stand_in(template.target.hostname.as_str());
    let extracted = extract_fields(response_body, &template.fields, &mask);
    let (disclosed, hashes) = match extracted {
        Ok(pair) => pair,
        Err(e) => {
            return Err(failure(422, e.message()));
        },
    };
    let proof = generate_proof_at(
        template.target.hostname.as_str(),
        response_body,
        cert_hash.as_slice(),
        keypair,
        proof_at,
    );
    if created_at.secs > MAX_UNIX_SECS - ATTESTATION_LIFETIME_SECS {
        return Err(failure(500, String::from_str("attestation expiry out of range")));
    }
    let expires_at = Timestamp {
        secs: created_at.secs + ATTESTATION_LIFETIME_SECS,
        nanos: created_at.nanos,
    };
    let attestation = Attestation {
        id: concat2("att-", attestation_suffix),
        claim_type: template.claim_type.clone(),
        session_proof_id: String::from_str(session_id),
        disclosed_fields: disclosed,
        redacted_field_hashes: hashes,
        template_id: template.id.clone(),
        created_at: created_at.copy(),
        expires_at: Some(expires_at),
    };
    Ok((proof, attestation))
}

/// Request to notarize a web interaction.
#[derive(Debug)]
pub struct NotarizeRequest {
    /// The template ID to use (e.g. "utah-voter-v1").
    pub template_id: String,
    /// Request body to send to the target server (for POST templates).
    pub request_body: Option<JsonValue>,
    /// Optional custom disclosure mask (overrides the template default).
    pub disclosure: Option<DisclosureMask>,
}

/// Response from a successful notarization.
#[derive(Debug)]
pub struct NotarizeResponse {
    /// Session ID for tracking.
    pub session_id: String,
    /// The signed session proof.
    pub proof: SessionProof,
    /// The attestation with disclosed and redacted fields.
    pub attestation: Attestation,
}

/// The session-status endpoint's answer: the session, or 404 with the
/// lookup error's text.
pub fn session_lookup(store: &SessionStore, id: &str) -> (r: Result<NotarySession, HttpFailure>)
    ensures
        match find_session(store.sessions(), id@) {
            Some(i) => r matches Ok(x) && store.sessions()[i].same_as(&x),
            None => r matches Err(f) && f.status == 404 && f.body.error@ == "session not found: "@
                + id@,
        },
{
    match store.get(id) {
        Ok(x) => Ok(x),
        Err(e) => Err(failure(404, e.message())),
    }
}


/// Whether `new` is `old` after marking the session `id` failed with
/// `reason` (unchanged when there is no such session).
pub open spec fn failed_marked(
    old: Seq<NotarySession>,
    id: Seq<char>,
    reason: Seq<char>,
    new: Seq<NotarySession>,
) -> bool {
    match find_session(old, id) {
        Some(i) => {
            &&& new == old.update(i, new[i])
            &&& new[i] == (NotarySession { state: new[i].state, ..old[i] })
            &&& new[i].state matches SessionState::Failed(m) && m@ == reason
        },
        None => new == old,
    }
}

/// Whether `new` is `mid` after marking the session `id` as fetching.
pub open spec fn fetching_marked(mid: Seq<NotarySession>, id: Seq<char>, new: Seq<NotarySession>) -> bool {
    match find_session(mid, id) {
        Some(i) => new == mid.update(i, NotarySession { state: SessionState::Fetching, ..mid[i] }),
        None => new == mid,
    }
}

/// Start a notarization: select the template, create a session for it and
/// mark the session as fetching. Returns the template and the session id, or
/// the refusal (404 or 403 from the selection, 503 when no session can be
/// created).
pub fn begin_notarization<'a>(
    store: &mut SessionStore,
    templates: &'a TemplateRegistry,
    allowed_hostnames: &Vec<String>,
    template_id: &str,
) -> (r: Result<(&'a VerificationTemplate, String), HttpFailure>)
    ensures
        final(store).capacity() == old(store).capacity(),
        final(store).sessions().len() <= final(store).capacity(),
        match selection(templates.view(), allowed_hostnames@, template_id@) {
            Err((status, text)) => {
                &&& r matches Err(f) && f.status == status && f.body.error@ == text
                &&& final(store).sessions() == old(store).sessions()
            },
            Ok(i) => exists|
                id: Seq<char>,
                at: Timestamp,
                mid: Seq<NotarySession>,
                created: Result<String, NotaryError>,
            |
                at.wf() && is_uuid_v4_text(id) && #[trigger] create_outcome(
                    old(store).sessions(),
                    old(store).capacity(),
                    templates.view()[i].target.hostname@,
                    templates.view()[i].id@,
                    id,
                    at,
                    mid,
                    created,
                ) && match created {
                    Err(e) => {
                        &&& r matches Err(f) && f.status == 503 && f.body.error@ == e.spec_message()
                        &&& final(store).sessions() == mid
                    },
                    Ok(_) => {
                        &&& r matches Ok((t, sid)) && *t == templates.view()[i] && sid@ == id
                        &&& fetching_marked(mid, id, final(store).sessions())
                    },
                },
        },
{
    proof {
        use_type_invariant(&*store);
        SessionStore::lemma_inv(*store);
    }
    let template = match select_template(templates, allowed_hostnames, template_id) {
        Err(f) => {
            return Err(f);
        },
        Ok(t) => t,
    };
    let id = new_session_id();
    let at = now();
    let ghost id_view = id@;
    let ghost at_view = at;
    let ghost before = store.sessions();
    let created = store.create_at(template.target.hostname.clone(), template.id.clone(), id, at);
    let ghost mid = store.sessions();
    let r = match &created {
        Err(e) => Err(session_unavailable(e)),
        Ok(sid) => {
            let _ = store.update_state(sid.as_str(), SessionState::Fetching);
            Ok((template, sid.clone()))
        },
    };
    assert(create_outcome(
        before,
        old(store).capacity(),
        template.target.hostname@,
        template.id@,
        id_view,
        at_view,
        mid,
        created,
    ));
    r
}

/// What came of fetching the target for a notarization.
#[derive(Debug)]
pub enum FetchOutcome {
    /// No response arrived; the HTTP client's error text.
    Unreachable(String),
    /// The target answered with a non-success status: the status, the final
    /// URL and the length of the body it sent.
    Refused { status: u16, url: String, body_bytes: usize },
    /// The target answered with a success status but its body could not be
    /// read; the HTTP client's error text.
    Unreadable(String),
    /// The body of a success response.
    Delivered { body: String },
}

/// The proof and attestation of a notarization's answer.
pub open spec fn response_pair(r: Result<NotarizeResponse, HttpFailure>) -> Result<
    (SessionProof, Attestation),
    HttpFailure,
> {
    match r {
        Ok(resp) => Ok((resp.proof, resp.attestation)),
        Err(f) => Err(f),
    }
}

/// Whether `after` is the session `before` once the response body and
/// certificate hash are stored and it is committing.
pub open spec fn committed_session(
    before: NotarySession,
    after: NotarySession,
    body: Seq<char>,
    cert_hash: Seq<u8>,
) -> bool {
    &&& after == (NotarySession {
        state: SessionState::Committing,
        response_body: after.response_body,
        certificate_hash: after.certificate_hash,
        ..before
    })
    &&& after.response_body matches Some(b) && b@ == body
    &&& after.certificate_hash matches Some(c) && c@ == cert_hash
}

/// Whether `after` is the session `before` once completed: the certificate
/// hash, the proof and the attestation are stored, the response body is
/// dropped and the session is completed.
pub open spec fn completed_session(
    before: NotarySession,
    after: NotarySession,
    cert_hash: Seq<u8>,
    proof: SessionProof,
    attestation: Attestation,
) -> bool {
    &&& after == (NotarySession {
        state: SessionState::Completed,
        response_body: None,
        certificate_hash: after.certificate_hash,
        proof: after.proof,
        attestation: after.attestation,
        ..before
    })
    &&& after.certificate_hash matches Some(c) && c@ == cert_hash
    &&& after.proof matches Some(p) && proof.same_as(&p)
    &&& after.attestation matches Some(a) && attestation.same_as(&a)
}

/// The outcome of concluding a notarization after the fetch, the store's
/// sessions going from `old` to `new`: a fetch that failed or was refused
/// fails the session with the text of the 502 refusal; an unreadable body is
/// refused with 502; a delivered body is stored with the certificate hash and
/// the session is committing, then the notarization is completed (see
/// `completion_outcome`) and, when it succeeds, the session keeps the proof
/// and attestation instead of the body and is completed.
pub open spec fn conclusion(
    old: Seq<NotarySession>,
    new: Seq<NotarySession>,
    template: VerificationTemplate,
    mask: DisclosureMask,
    session_id: Seq<char>,
    fetched: FetchOutcome,
    seed: Seq<u8>,
    proof_at: Timestamp,
    attestation_suffix: Seq<char>,
    created_at: Timestamp,
    r: Result<NotarizeResponse, HttpFailure>,
) -> bool {
    match fetched {
        FetchOutcome::Unreachable(e) => {
            let text = "fetch failed: "@ + e@;
            &&& r matches Err(f) && f.status == 502 && f.body.error@ == text
            &&& failed_marked(old, session_id, text, new)
        },
        FetchOutcome::Refused { status, url, body_bytes } => {
            let text = refusal_text(status, template.id@, url@, body_bytes);
            &&& r matches Err(f) && f.status == 502 && f.body.error@ == text
            &&& failed_marked(old, session_id, text, new)
        },
        FetchOutcome::Unreadable(e) => {
            &&& r matches Err(f) && f.status == 502 && f.body.error@ == "failed to read response body: "@
                + e@
            &&& new == old
        },
        FetchOutcome::Delivered { body } => {
            let cert_hash = sha512_of(encode_utf8("tls-cert:"@ + template.target.hostname@));
            &&& completion_outcome(
                template,
                mask,
                body@,
                seed,
                session_id,
                proof_at,
                attestation_suffix,
                created_at,
                response_pair(r),
            )
            &&& r matches Ok(resp) ==> resp.session_id@ == session_id
            &&& match find_session(old, session_id) {
                None => new == old,
                Some(i) => new == old.update(i, new[i]) && match r {
                    Ok(resp) => completed_session(
                        old[i],
                        new[i],
                        cert_hash,
                        resp.proof,
                        resp.attestation,
                    ),
                    Err(_) => committed_session(old[i], new[i], body@, cert_hash),
                },
            }
        },
    }
}

/// Conclude a notarization once the target has been fetched: record the
/// outcome in the session and answer the request.
pub fn conclude_notarization(
    store: &mut SessionStore,
    template: &VerificationTemplate,
    disclosure: Option<DisclosureMask>,
    session_id: &str,
    fetched: FetchOutcome,
    keypair: &NotaryKeyPair,
) -> (r: Result<NotarizeResponse, HttpFailure>)
    ensures
        final(store).capacity() == old(store).capacity(),
        final(store).sessions().len() <= final(store).capacity(),
        exists|proof_at: Timestamp, suffix: Seq<char>, created_at: Timestamp|
            proof_at.wf() && created_at.wf() && #[trigger] conclusion(
                old(store).sessions(),
                final(store).sessions(),
                *template,
                chosen_mask(disclosure, *template),
                session_id@,
                fetched,
                keypair.secret_seed(),
                proof_at,
                suffix,
                created_at,
                r,
            ),
{
    proof {
        use_type_invariant(&*store);
        SessionStore::lemma_inv(*store);
    }
    let ghost old_sessions = store.sessions();
    let ghost fetched_view = fetched;
    let ghost mask = chosen_mask(disclosure, *template);
    let ghost mut proof_at_w = Timestamp { secs: 0, nanos: 0 };
    let ghost mut suffix_w = Seq::<char>::empty();
    let ghost mut created_at_w = Timestamp { secs: 0, nanos: 0 };
    let r = match fetched {
        FetchOutcome::Unreachable(e) => {
            let text = concat2("fetch failed: ", e.as_str());
            let _ = store.update_state(session_id, SessionState::Failed(text.clone()));
            Err(failure(502, text))
        },
        FetchOutcome::Refused { status, url, body_bytes } => {
            let text = refusal_message(status, template.id.as_str(), url.as_str(), body_bytes);
            let _ = store.update_state(session_id, SessionState::Failed(text.clone()));
            Err(failure(502, text))
        },
        FetchOutcome::Unreadable(e) => {
            Err(failure(502, concat2("failed to read response body: ", e.as_str())))
        },
        FetchOutcome::Delivered { body } => {
            let cert_hash = certificate_stand_in(template.target.hostname.as_str());
            let ghost s0 = store.sessions();
            let _ = store.store_response(session_id, body.clone(), copy_bytes(&cert_hash));
            let ghost s1 = store.sessions();
            proof {
                lemma_find_session(s0, session_id@);
                if let Some(i) = find_session(s0, session_id@) {
                    lemma_find_session_update(s0, i, s1[i], session_id@);
                }
            }
            let _ = store.update_state(session_id, SessionState::Committing);
            let ghost s2 = store.sessions();
            proof {
                if let Some(i) = find_session(s0, session_id@) {
                    lemma_find_session_update(s1, i, s2[i], session_id@);
                    assert(s2 =~= s0.update(i, s2[i]));
                }
            }
            let proof_at = now();
            let suffix = new_session_id();
            let created_at = now();
            proof {
                proof_at_w = proof_at;
                suffix_w = suffix@;
                created_at_w = created_at;
            }
            let completed = complete_notarization(
                template,
                disclosure,
                body.as_str(),
                keypair,
                session_id,
                &proof_at,
                suffix.as_str(),
                &created_at,
            );
            match completed {
                Err(f) => Err(f),
                Ok((proof, attestation)) => {
                    let _ = store.store_proof(session_id, proof.copy(), attestation.copy());
                    proof {
                        let s3 = store.sessions();
                        if let Some(i) = find_session(s0, session_id@) {
                            assert(s3 =~= s0.update(i, s3[i]));
                        }
                    }
                    Ok(NotarizeResponse { session_id: String::from_str(session_id), proof, attestation })
                },
            }
        },
    };
    assert(conclusion(
        old_sessions,
        store.sessions(),
        *template,
        mask,
        session_id@,
        fetched_view,
        keypair.secret_seed(),
        proof_at_w,
        suffix_w,
        created_at_w,
        r,
    ));
    r
}

} // verus!
