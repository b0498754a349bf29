//! Properties that relate several operations of the library.

use vstd::prelude::*;

use crate::digest::{hex_lower, sha512_of};
use vstd::utf8::encode_utf8;
use crate::json::{json_parse_of, tree_at_path, tree_bytes, JsonTree};
use crate::keys::{ed25519_signature_of, NotaryKeyPair};
use crate::notary::{
    chosen_mask, completion_outcome, conclusion, fetching_marked, response_pair, selection,
};
use crate::session::{
    byte_lists, create_outcome, signing_message, extraction, find_session, is_generated_proof, is_new_session,
    is_terminal, lemma_find_session, lemma_find_session_update, live_sessions, redaction_hash,
    NotarySession, SessionState,
};
use crate::templates::{first_with_id, FieldDefinition, VerificationTemplate};
use crate::time::Timestamp;
use crate::types::{strings_contain, Attestation, DisclosureMask, SessionProof};
use crate::verify::{
    attestation_outcome, field_check_one, first_trusted, regex_match_of, scalar_text, template_passes,
    FieldCheck, proof_check, ProofCheck, TrustedNotary, VerificationError,
    VerificationResult,
};

verus! {

/// A proof that the notary generates passes every check of a verifier that
/// trusts the notary's public key.
pub proof fn law_notarized_proof_verifies(
    trusted: Seq<TrustedNotary>,
    p: SessionProof,
    hostname: Seq<char>,
    response_body: Seq<char>,
    cert_hash: Seq<u8>,
    seed: Seq<u8>,
    at: Timestamp,
)
    requires
        is_generated_proof(p, hostname, response_body, cert_hash, seed, at),
        first_trusted(trusted, p.notary_public_key@) is Some,
    ensures
        proof_check(trusted, p) == ProofCheck::Valid,
{
}

/// An attestation backed by a proof that the notary generated, not expired at
/// the time of verification, and passing the checks of its template, is
/// accepted by a verifier that trusts the notary, and exactly its disclosed
/// fields are returned as verified.
pub proof fn law_notarized_attestation_verifies(
    trusted: Seq<TrustedNotary>,
    templates: Seq<VerificationTemplate>,
    a: Attestation,
    p: SessionProof,
    hostname: Seq<char>,
    response_body: Seq<char>,
    cert_hash: Seq<u8>,
    seed: Seq<u8>,
    generated_at: Timestamp,
    at: Timestamp,
    r: Result<VerificationResult, VerificationError>,
)
    requires
        is_generated_proof(p, hostname, response_body, cert_hash, seed, generated_at),
        first_trusted(trusted, p.notary_public_key@) is Some,
        a.expires_at matches Some(e) ==> !e.spec_before(at),
        template_passes(templates, a),
        attestation_outcome(trusted, templates, a, p, at, r),
    ensures
        r matches Ok(res) && res.valid && res.verified_fields.view() == a.disclosed_fields.view()
            && res.claim_type@ == a.claim_type@,
{
    law_notarized_proof_verifies(trusted, p, hostname, response_body, cert_hash, seed, generated_at);
}

/// An attestation whose expiry lies before the time of verification is
/// refused as expired, however valid its proof.
pub proof fn law_expired_attestation_refused(
    trusted: Seq<TrustedNotary>,
    templates: Seq<VerificationTemplate>,
    a: Attestation,
    p: SessionProof,
    at: Timestamp,
    r: Result<VerificationResult, VerificationError>,
)
    requires
        proof_check(trusted, p) == ProofCheck::Valid,
        a.expires_at matches Some(e) && e.spec_before(at),
        attestation_outcome(trusted, templates, a, p, at, r),
    ensures
        r matches Err(VerificationError::Expired(_)),
{
}

/// A key pair restored from the seed of another has the same public key and
/// makes the same signatures.
pub proof fn law_seed_roundtrip(saved: NotaryKeyPair, restored: NotaryKeyPair, message: Seq<u8>)
    requires
        restored.secret_seed() == saved.secret_seed(),
    ensures
        restored.public_key() == saved.public_key(),
        ed25519_signature_of(restored.secret_seed(), message) == ed25519_signature_of(
            saved.secret_seed(),
            message,
        ),
{
}

/// After a template is registered under an id that no earlier template
/// carries, looking the id up finds that template.
pub proof fn law_registered_template_found(
    registered: Seq<VerificationTemplate>,
    template: VerificationTemplate,
)
    requires
        first_with_id(registered, template.id@) is None,
    ensures
        first_with_id(registered.push(template), template.id@) == Some(registered.len() as int),
{
    assert(registered.push(template).drop_last() =~= registered);
}


/// A proof signed by a notary that the verifier does not trust is refused,
/// naming the notary's key in hex, and so is any attestation it backs.
pub proof fn law_untrusted_notary_refused(
    trusted: Seq<TrustedNotary>,
    templates: Seq<VerificationTemplate>,
    a: Attestation,
    p: SessionProof,
    at: Timestamp,
    r: Result<VerificationResult, VerificationError>,
)
    requires
        first_trusted(trusted, p.notary_public_key@) is None,
        attestation_outcome(trusted, templates, a, p, at, r),
    ensures
        proof_check(trusted, p) == ProofCheck::Untrusted,
        r matches Err(VerificationError::UntrustedNotary(h)) && h@ == hex_lower(p.notary_public_key@),
{
}

/// Whether some field definition named `name` has a path that the mask
/// discloses.
pub open spec fn disclosed_by_mask(
    fields: Seq<FieldDefinition>,
    mask: DisclosureMask,
    name: Seq<char>,
) -> bool {
    exists|i: int|
        0 <= i < fields.len() && #[trigger] fields[i].name@ == name && strings_contain(
            mask.disclosed_paths@,
            fields[i].json_path@,
        )
}

/// Whether `h` is the redaction hash of the value of some field whose path
/// the mask redacts (and does not disclose).
pub open spec fn redaction_of_masked_field(
    doc: JsonTree,
    fields: Seq<FieldDefinition>,
    mask: DisclosureMask,
    h: Seq<u8>,
) -> bool {
    exists|i: int|
        0 <= i < fields.len() && !strings_contain(mask.disclosed_paths@, fields[i].json_path@)
            && strings_contain(mask.redacted_paths@, fields[i].json_path@) && (#[trigger] tree_at_path(
            doc,
            fields[i].json_path@,
        ) matches Some(v) && h == redaction_hash(fields[i].json_path@, v))
}

/// Selective disclosure reveals nothing beyond the mask: every disclosed field
/// is a template field whose path the mask discloses, and every recorded hash
/// is the redaction hash of a field whose path the mask redacts, at most one
/// per field definition.
pub proof fn law_extraction_reveals_only_masked_fields(
    doc: JsonTree,
    fields: Seq<FieldDefinition>,
    mask: DisclosureMask,
)
    requires
        extraction(doc, fields, mask) is Ok,
    ensures
        ({
            let (disclosed, hashes) = extraction(doc, fields, mask)->Ok_0;
            &&& forall|k: Seq<char>|
                disclosed.dom().contains(k) ==> #[trigger] disclosed_by_mask(fields, mask, k)
            &&& hashes.len() <= fields.len()
            &&& forall|j: int|
                0 <= j < hashes.len() ==> #[trigger] redaction_of_masked_field(
                    doc,
                    fields,
                    mask,
                    hashes[j],
                )
        }),
    decreases fields.len(),
{
    if fields.len() > 0 {
        let prefix = fields.drop_last();
        let last = fields.last();
        let n = fields.len() - 1;
        law_extraction_reveals_only_masked_fields(doc, prefix, mask);
        let (d0, h0) = extraction(doc, prefix, mask)->Ok_0;
        let (d, h) = extraction(doc, fields, mask)->Ok_0;
        assert forall|k: Seq<char>| d.dom().contains(k) implies #[trigger] disclosed_by_mask(
            fields,
            mask,
            k,
        ) by {
            if d0.dom().contains(k) {
                assert(disclosed_by_mask(prefix, mask, k));
                let i = choose|i: int|
                    0 <= i < prefix.len() && #[trigger] prefix[i].name@ == k && strings_contain(
                        mask.disclosed_paths@,
                        prefix[i].json_path@,
                    );
                assert(fields[i] == prefix[i]);
            } else {
                assert(fields[n] == last);
                assert(last.name@ == k);
            }
        }
        assert forall|j: int| 0 <= j < h.len() implies #[trigger] redaction_of_masked_field(
            doc,
            fields,
            mask,
            h[j],
        ) by {
            if j < h0.len() {
                assert(h[j] == h0[j]);
                assert(redaction_of_masked_field(doc, prefix, mask, h0[j]));
                let i = choose|i: int|
                    0 <= i < prefix.len() && !strings_contain(
                        mask.disclosed_paths@,
                        prefix[i].json_path@,
                    ) && strings_contain(mask.redacted_paths@, prefix[i].json_path@) && (
                    #[trigger] tree_at_path(doc, prefix[i].json_path@) matches Some(v) && h0[j]
                        == redaction_hash(prefix[i].json_path@, v));
                assert(fields[i] == prefix[i]);
            } else {
                assert(fields[n] == last);
                assert(tree_at_path(doc, fields[n].json_path@) is Some);
            }
        }
    }
}

/// A non-terminal session of `s` is among its live sessions.
proof fn lemma_live_sessions_keep(s: Seq<NotarySession>, x: NotarySession)
    requires
        s.contains(x),
        !is_terminal(x.state),
    ensures
        live_sessions(s).contains(x),
    decreases s.len(),
{
    let rest = s.drop_first();
    if s[0] == x {
        assert(live_sessions(s) == seq![s[0]] + live_sessions(rest));
        assert(live_sessions(s)[0] == x);
    } else {
        let k = choose|k: int| 0 <= k < s.len() && s[k] == x;
        assert(rest[k - 1] == x);
        lemma_live_sessions_keep(rest, x);
        let m = choose|m: int| 0 <= m < live_sessions(rest).len() && live_sessions(rest)[m] == x;
        if is_terminal(s[0].state) {
            assert(live_sessions(s) == live_sessions(rest));
        } else {
            assert(live_sessions(s) == seq![s[0]] + live_sessions(rest));
            assert(live_sessions(s)[m + 1] == x);
        }
    }
}

/// Creating a session never evicts a session that is still live (neither
/// completed nor failed), whatever its outcome; only a session with the new
/// id itself can be replaced.
pub proof fn law_create_keeps_live_sessions(
    old_sessions: Seq<NotarySession>,
    max_sessions: nat,
    hostname: Seq<char>,
    template_id: Seq<char>,
    id: Seq<char>,
    at: Timestamp,
    new_sessions: Seq<NotarySession>,
    r: Result<String, crate::error::NotaryError>,
    x: NotarySession,
)
    requires
        create_outcome(old_sessions, max_sessions, hostname, template_id, id, at, new_sessions, r),
        old_sessions.contains(x),
        !is_terminal(x.state),
        x.id@ != id,
    ensures
        new_sessions.contains(x),
{
    let kept = crate::session::sessions_after_eviction(old_sessions, max_sessions);
    if old_sessions.len() >= max_sessions {
        lemma_live_sessions_keep(old_sessions, x);
    }
    assert(kept.contains(x));
    let k = choose|k: int| 0 <= k < kept.len() && kept[k] == x;
    if kept.len() < max_sessions {
        lemma_find_session(kept, id);
        match find_session(kept, id) {
            Some(i) => {
                assert(k != i);
                assert(new_sessions[k] == x);
            },
            None => {
                assert(new_sessions.drop_last()[k] == x);
                assert(new_sessions[k] == x);
            },
        }
    }
}

/// A session that was created can be looked up by the id that creation
/// returned, and it is the new session.
pub proof fn law_created_session_found(
    old_sessions: Seq<NotarySession>,
    max_sessions: nat,
    hostname: Seq<char>,
    template_id: Seq<char>,
    id: Seq<char>,
    at: Timestamp,
    new_sessions: Seq<NotarySession>,
    r: Result<String, crate::error::NotaryError>,
)
    requires
        create_outcome(old_sessions, max_sessions, hostname, template_id, id, at, new_sessions, r),
        r is Ok,
    ensures
        find_session(new_sessions, r->Ok_0@) matches Some(i) && is_new_session(
            new_sessions[i],
            id,
            hostname,
            template_id,
            at,
        ),
{
    let kept = crate::session::sessions_after_eviction(old_sessions, max_sessions);
    lemma_find_session(kept, id);
    lemma_find_session(new_sessions, id);
    match find_session(kept, id) {
        Some(i) => {
            assert(new_sessions[i].id@ == id);
            assert forall|j: int| 0 <= j < i implies new_sessions[j].id@ != id by {
                assert(new_sessions[j] == kept[j]);
            }
        },
        None => {
            let n = new_sessions.len() - 1;
            assert forall|j: int| 0 <= j < n implies new_sessions[j].id@ != id by {
                assert(new_sessions[j] == new_sessions.drop_last()[j]);
            }
        },
    }
}


/// An attestation that the notary issues discloses only template fields whose
/// paths the disclosure mask discloses, and the hashes it records are those
/// of fields whose paths the mask redacts.
pub proof fn law_notarized_attestation_reveals_only_masked_fields(
    template: VerificationTemplate,
    mask: DisclosureMask,
    response_body: Seq<char>,
    seed: Seq<u8>,
    session_id: Seq<char>,
    proof_at: Timestamp,
    attestation_suffix: Seq<char>,
    created_at: Timestamp,
    r: Result<(SessionProof, Attestation), crate::notary::HttpFailure>,
)
    requires
        completion_outcome(
            template,
            mask,
            response_body,
            seed,
            session_id,
            proof_at,
            attestation_suffix,
            created_at,
            r,
        ),
        r is Ok,
    ensures
        json_parse_of(response_body) is Ok,
        forall|k: Seq<char>|
            r->Ok_0.1.disclosed_fields.view().dom().contains(k) ==> #[trigger] disclosed_by_mask(
                template.fields@,
                mask,
                k,
            ),
        forall|j: int|
            0 <= j < r->Ok_0.1.redacted_field_hashes@.len() ==> #[trigger] redaction_of_masked_field(
                json_parse_of(response_body)->Ok_0,
                template.fields@,
                mask,
                r->Ok_0.1.redacted_field_hashes@[j]@,
            ),
{
    let doc = json_parse_of(response_body)->Ok_0;
    law_extraction_reveals_only_masked_fields(doc, template.fields@, mask);
    let a = r->Ok_0.1;
    let hashes = extraction(doc, template.fields@, mask)->Ok_0.1;
    assert forall|j: int| 0 <= j < a.redacted_field_hashes@.len() implies #[trigger] redaction_of_masked_field(
        doc,
        template.fields@,
        mask,
        a.redacted_field_hashes@[j]@,
    ) by {
        assert(byte_lists(a.redacted_field_hashes@)[j] == a.redacted_field_hashes@[j]@);
        assert(hashes[j] == a.redacted_field_hashes@[j]@);
    }
}


/// Selective disclosure does not let hidden values through: two documents
/// that hold the same values at every disclosed path, and whose required
/// fields are present in one exactly when present in the other, extract to
/// the same outcome: the same error, or the same disclosed fields. Values at
/// other paths reach the attestation only inside redaction hashes.
pub proof fn law_extraction_depends_only_on_disclosed_values(
    doc1: JsonTree,
    doc2: JsonTree,
    fields: Seq<FieldDefinition>,
    mask: DisclosureMask,
)
    requires
        forall|i: int|
            0 <= i < fields.len() && strings_contain(mask.disclosed_paths@, fields[i].json_path@)
                ==> #[trigger] tree_at_path(doc1, fields[i].json_path@) == tree_at_path(
                doc2,
                fields[i].json_path@,
            ),
        forall|i: int|
            0 <= i < fields.len() && fields[i].required ==> (#[trigger] tree_at_path(
                doc1,
                fields[i].json_path@,
            ) is Some <==> tree_at_path(doc2, fields[i].json_path@) is Some),
    ensures
        extraction(doc1, fields, mask) is Ok <==> extraction(doc2, fields, mask) is Ok,
        extraction(doc1, fields, mask) is Err ==> extraction(doc1, fields, mask) == extraction(
            doc2,
            fields,
            mask,
        ),
        extraction(doc1, fields, mask) is Ok ==> extraction(doc1, fields, mask)->Ok_0.0
            == extraction(doc2, fields, mask)->Ok_0.0,
    decreases fields.len(),
{
    if fields.len() > 0 {
        let prefix = fields.drop_last();
        let n = fields.len() - 1;
        assert forall|i: int|
            0 <= i < prefix.len() && strings_contain(mask.disclosed_paths@, prefix[i].json_path@)
                implies #[trigger] tree_at_path(doc1, prefix[i].json_path@) == tree_at_path(
                doc2,
                prefix[i].json_path@,
            ) by {
            assert(prefix[i] == fields[i]);
        }
        assert forall|i: int| 0 <= i < prefix.len() && prefix[i].required implies (
        #[trigger] tree_at_path(doc1, prefix[i].json_path@) is Some <==> tree_at_path(
            doc2,
            prefix[i].json_path@,
        ) is Some) by {
            assert(prefix[i] == fields[i]);
        }
        law_extraction_depends_only_on_disclosed_values(doc1, doc2, prefix, mask);
        let last = fields.last();
        assert(last == fields[n]);
        if last.required {
            assert(tree_at_path(doc1, fields[n].json_path@) is Some <==> tree_at_path(
                doc2,
                fields[n].json_path@,
            ) is Some);
        }
        if strings_contain(mask.disclosed_paths@, last.json_path@) {
            assert(tree_at_path(doc1, fields[n].json_path@) == tree_at_path(
                doc2,
                fields[n].json_path@,
            ));
        }
    }
}


/// Extraction discloses every required field whose path the mask discloses.
proof fn lemma_extraction_discloses_required(
    doc: JsonTree,
    fields: Seq<FieldDefinition>,
    mask: DisclosureMask,
)
    requires
        extraction(doc, fields, mask) is Ok,
    ensures
        forall|i: int|
            0 <= i < fields.len() && fields[i].required && strings_contain(
                mask.disclosed_paths@,
                fields[i].json_path@,
            ) ==> extraction(doc, fields, mask)->Ok_0.0.contains_key(#[trigger] fields[i].name@),
    decreases fields.len(),
{
    if fields.len() > 0 {
        let prefix = fields.drop_last();
        lemma_extraction_discloses_required(doc, prefix, mask);
        let n = fields.len() - 1;
        assert forall|i: int|
            0 <= i < fields.len() && fields[i].required && strings_contain(
                mask.disclosed_paths@,
                fields[i].json_path@,
            ) implies extraction(doc, fields, mask)->Ok_0.0.contains_key(
            #[trigger] fields[i].name@,
        ) by {
            if i < n {
                assert(prefix[i] == fields[i]);
            }
        }
    }
}

/// An attestation that the notary issues under a mask that discloses the
/// path of every required field of the template holds every required field,
/// so a verifier that knows the template finds none missing.
pub proof fn law_notarized_attestation_holds_required_fields(
    template: VerificationTemplate,
    mask: DisclosureMask,
    response_body: Seq<char>,
    seed: Seq<u8>,
    session_id: Seq<char>,
    proof_at: Timestamp,
    attestation_suffix: Seq<char>,
    created_at: Timestamp,
    r: Result<(SessionProof, Attestation), crate::notary::HttpFailure>,
)
    requires
        completion_outcome(
            template,
            mask,
            response_body,
            seed,
            session_id,
            proof_at,
            attestation_suffix,
            created_at,
            r,
        ),
        r is Ok,
        forall|i: int|
            0 <= i < template.fields@.len() && #[trigger] template.fields@[i].required
                ==> strings_contain(mask.disclosed_paths@, template.fields@[i].json_path@),
    ensures
        forall|i: int|
            0 <= i < template.fields@.len() && template.fields@[i].required
                ==> r->Ok_0.1.disclosed_fields.view().contains_key(
                #[trigger] template.fields@[i].name@,
            ),
{
    lemma_extraction_discloses_required(json_parse_of(response_body)->Ok_0, template.fields@, mask);
}


/// Creating a session succeeds whenever the sessions that are still live
/// leave room under the capacity: finished sessions never block a new one.
pub proof fn law_create_succeeds_when_live_sessions_leave_room(
    old_sessions: Seq<NotarySession>,
    max_sessions: nat,
    hostname: Seq<char>,
    template_id: Seq<char>,
    id: Seq<char>,
    at: Timestamp,
    new_sessions: Seq<NotarySession>,
    r: Result<String, crate::error::NotaryError>,
)
    requires
        create_outcome(old_sessions, max_sessions, hostname, template_id, id, at, new_sessions, r),
        live_sessions(old_sessions).len() < max_sessions,
    ensures
        r matches Ok(rid) && rid@ == id,
{
}


/// A notarization that begins and concludes successfully leaves its session
/// completed: looked up by the returned session id, it holds this proof and
/// attestation, the certificate hash the proof commits to, the template's id
/// and hostname, and no longer the response body.
pub proof fn law_notarized_session_completed(
    sessions0: Seq<NotarySession>,
    capacity: nat,
    templates: Seq<VerificationTemplate>,
    allowed_hostnames: Seq<String>,
    template_id: Seq<char>,
    id: Seq<char>,
    at: Timestamp,
    mid: Seq<NotarySession>,
    created: Result<String, crate::error::NotaryError>,
    sessions1: Seq<NotarySession>,
    sessions2: Seq<NotarySession>,
    mask: DisclosureMask,
    fetched: crate::notary::FetchOutcome,
    seed: Seq<u8>,
    proof_at: Timestamp,
    attestation_suffix: Seq<char>,
    created_at: Timestamp,
    r: Result<crate::notary::NotarizeResponse, crate::notary::HttpFailure>,
)
    requires
        selection(templates, allowed_hostnames, template_id) is Ok,
        create_outcome(
            sessions0,
            capacity,
            templates[selection(templates, allowed_hostnames, template_id)->Ok_0].target.hostname@,
            templates[selection(templates, allowed_hostnames, template_id)->Ok_0].id@,
            id,
            at,
            mid,
            created,
        ),
        created is Ok,
        fetching_marked(mid, id, sessions1),
        conclusion(
            sessions1,
            sessions2,
            templates[selection(templates, allowed_hostnames, template_id)->Ok_0],
            mask,
            id,
            fetched,
            seed,
            proof_at,
            attestation_suffix,
            created_at,
            r,
        ),
        r is Ok,
    ensures
        ({
            let t = templates[selection(templates, allowed_hostnames, template_id)->Ok_0];
            let resp = r->Ok_0;
            &&& resp.session_id@ == id
            &&& find_session(sessions2, id) matches Some(j) && {
                let s = sessions2[j];
                &&& s.state == SessionState::Completed
                &&& s.response_body is None
                &&& s.certificate_hash matches Some(c) && c@ == resp.proof.certificate_hash@
                &&& s.proof matches Some(p) && resp.proof.same_as(&p)
                &&& s.attestation matches Some(a) && resp.attestation.same_as(&a)
                &&& s.template_id@ == t.id@
                &&& s.target_hostname@ == t.target.hostname@
            }
        }),
{
    let i = selection(templates, allowed_hostnames, template_id)->Ok_0;
    let t = templates[i];
    law_created_session_found(
        sessions0,
        capacity,
        t.target.hostname@,
        t.id@,
        id,
        at,
        mid,
        created,
    );
    let k = find_session(mid, id)->Some_0;
    lemma_find_session(mid, id);
    lemma_find_session_update(mid, k, sessions1[k], id);
    assert(find_session(sessions1, id) == Some(k));
    lemma_find_session_update(sessions1, k, sessions2[k], id);
    assert(find_session(sessions2, id) == Some(k));
}


/// The signed message binds the certificate hash: with the hostname,
/// commitment and time fixed, two certificate hashes give the same message
/// only if they are equal, and the hash stands in the message right after the
/// hostname and its zero byte, whatever its length.
pub proof fn law_signing_message_binds_certificate_hash(
    hostname: Seq<char>,
    cert1: Seq<u8>,
    cert2: Seq<u8>,
    commitment: Seq<u8>,
    at: Timestamp,
)
    ensures
        signing_message(hostname, cert1, commitment, at) == signing_message(
            hostname,
            cert2,
            commitment,
            at,
        ) ==> cert1 == cert2,
        signing_message(hostname, cert1, commitment, at).subrange(
            encode_utf8(hostname).len() + 1int,
            encode_utf8(hostname).len() + 1int + cert1.len(),
        ) == cert1,
        signing_message(hostname, cert1, commitment, at)[encode_utf8(hostname).len() as int] == 0u8,
{
    let h = encode_utf8(hostname);
    let tail = seq![0u8] + commitment + seq![0u8] + encode_utf8(rfc3339_text(at));
    let m1 = signing_message(hostname, cert1, commitment, at);
    let m2 = signing_message(hostname, cert2, commitment, at);
    assert(m1 =~= h + seq![0u8] + cert1 + tail);
    assert(m2 =~= h + seq![0u8] + cert2 + tail);
    assert(m1.subrange(h.len() + 1int, h.len() + 1int + cert1.len()) =~= cert1);
    if m1 == m2 {
        assert(cert1.len() == cert2.len());
        assert(cert1 =~= m1.subrange(h.len() + 1int, h.len() + 1int + cert1.len()));
        assert(cert2 =~= m2.subrange(h.len() + 1int, h.len() + 1int + cert2.len()));
    }
}

/// The RFC 3339 text of a timestamp.
spec fn rfc3339_text(at: Timestamp) -> Seq<char> {
    crate::time::rfc3339_of(at.secs, at.nanos)
}

/// Whether a field's path is redacted and not disclosed by the mask, and the
/// document holds a value there.
pub open spec fn redacted_and_present(doc: JsonTree, f: FieldDefinition, mask: DisclosureMask) -> bool {
    &&& !strings_contain(mask.disclosed_paths@, f.json_path@)
    &&& strings_contain(mask.redacted_paths@, f.json_path@)
    &&& tree_at_path(doc, f.json_path@) is Some
}

/// For each field, in order, that is redacted and present: the SHA-512 of its
/// path, a colon and the compact JSON text of its value.
pub open spec fn redacted_value_hashes(
    doc: JsonTree,
    fields: Seq<FieldDefinition>,
    mask: DisclosureMask,
) -> Seq<Seq<u8>>
    decreases fields.len(),
{
    if fields.len() == 0 {
        Seq::empty()
    } else {
        let rest = redacted_value_hashes(doc, fields.drop_last(), mask);
        let f = fields.last();
        if redacted_and_present(doc, f, mask) {
            rest.push(
                sha512_of(
                    encode_utf8(f.json_path@) + seq![0x3au8] + tree_bytes(
                        tree_at_path(doc, f.json_path@)->Some_0,
                    ),
                ),
            )
        } else {
            rest
        }
    }
}

/// The number of fields that are redacted and present.
pub open spec fn redacted_present_count(
    doc: JsonTree,
    fields: Seq<FieldDefinition>,
    mask: DisclosureMask,
) -> nat
    decreases fields.len(),
{
    if fields.len() == 0 {
        0
    } else {
        redacted_present_count(doc, fields.drop_last(), mask) + if redacted_and_present(
            doc,
            fields.last(),
            mask,
        ) {
            1nat
        } else {
            0nat
        }
    }
}

/// A successful extraction records exactly one hash for every field whose
/// path is redacted (and not disclosed) and present in the document, in field
/// order and whatever the JSON type of the value: the SHA-512 of the path, a
/// colon, and the value's compact JSON text.
pub proof fn law_redacted_fields_each_hashed(
    doc: JsonTree,
    fields: Seq<FieldDefinition>,
    mask: DisclosureMask,
)
    requires
        extraction(doc, fields, mask) is Ok,
    ensures
        extraction(doc, fields, mask)->Ok_0.1 == redacted_value_hashes(doc, fields, mask),
        extraction(doc, fields, mask)->Ok_0.1.len() == redacted_present_count(doc, fields, mask),
    decreases fields.len(),
{
    if fields.len() > 0 {
        law_redacted_fields_each_hashed(doc, fields.drop_last(), mask);
    }
}

/// The UTF-8 encoding of an ASCII text is its bytes one for one.
proof fn lemma_ascii_text_bytes(chars: Seq<char>, bytes: Seq<u8>)
    requires
        vstd::utf8::is_ascii_chars(chars),
        chars.len() == bytes.len(),
        forall|i: int| 0 <= i < chars.len() ==> chars[i] as u8 == bytes[i],
    ensures
        encode_utf8(chars) == bytes,
{
    vstd::utf8::is_ascii_chars_encode_utf8(chars);
    assert(encode_utf8(chars) =~= bytes);
}

/// A disclosed value's text for pattern checks is its JSON text when it is a
/// number, a boolean or null, and its characters when it is a string.
pub proof fn law_scalar_text_is_json_text(t: JsonTree)
    ensures
        (t is Number || t is Bool || t is Null) ==> encode_utf8(scalar_text(t)) == tree_bytes(t),
        t matches JsonTree::Str(s) ==> scalar_text(t) == s,
{
    match t {
        JsonTree::Bool(b) => {
            if b {
                reveal_strlit("true");
                lemma_ascii_text_bytes("true"@, seq![0x74u8, 0x72u8, 0x75u8, 0x65u8]);
            } else {
                reveal_strlit("false");
                lemma_ascii_text_bytes("false"@, seq![0x66u8, 0x61u8, 0x6cu8, 0x73u8, 0x65u8]);
            }
        },
        JsonTree::Null => {
            reveal_strlit("null");
            lemma_ascii_text_bytes("null"@, seq![0x6eu8, 0x75u8, 0x6cu8, 0x6cu8]);
        },
        _ => {},
    }
}

/// A disclosed number is checked against its field's pattern through its own
/// JSON text: the field passes exactly when the pattern matches that text.
pub proof fn law_number_checked_by_its_text(
    f: FieldDefinition,
    disclosed: Map<Seq<char>, JsonTree>,
    n: Seq<char>,
    pattern: Seq<char>,
)
    requires
        disclosed.contains_key(f.name@),
        disclosed[f.name@] == JsonTree::Number(n),
        f.validation_pattern matches Some(p) && p@ == pattern,
    ensures
        (field_check_one(f, disclosed) == FieldCheck::Pass) <==> (regex_match_of(pattern, n)
            == Some(true)),
{
}

/// Template selection allows a hostname listed anywhere in a non-empty
/// allowlist, and refuses with 403 exactly when the allowlist is non-empty and
/// no entry equals the template's hostname.
pub proof fn law_allowlist_any_entry(
    templates: Seq<VerificationTemplate>,
    allowed: Seq<String>,
    template_id: Seq<char>,
    i: int,
)
    requires
        first_with_id(templates, template_id) == Some(i),
    ensures
        (exists|k: int| 0 <= k < allowed.len() && #[trigger] allowed[k]@ == templates[i].target.hostname@)
            ==> selection(templates, allowed, template_id) == Ok::<int, (u16, Seq<char>)>(i),
        allowed.len() == 0 ==> selection(templates, allowed, template_id) == Ok::<
            int,
            (u16, Seq<char>),
        >(i),
        (allowed.len() != 0 && forall|k: int|
            0 <= k < allowed.len() ==> #[trigger] allowed[k]@ != templates[i].target.hostname@)
            ==> (selection(templates, allowed, template_id) matches Err((status, _)) && status
            == 403),
{
}

/// A request's own disclosure mask decides what its attestation reveals:
/// every disclosed field of a notarized attestation is a template field whose
/// path that mask discloses, whatever the template's default mask.
pub proof fn law_request_mask_decides_disclosure(
    template: VerificationTemplate,
    request_mask: DisclosureMask,
    response_body: Seq<char>,
    seed: Seq<u8>,
    session_id: Seq<char>,
    proof_at: Timestamp,
    attestation_suffix: Seq<char>,
    created_at: Timestamp,
    r: Result<(SessionProof, Attestation), crate::notary::HttpFailure>,
)
    requires
        completion_outcome(
            template,
            chosen_mask(Some(request_mask), template),
            response_body,
            seed,
            session_id,
            proof_at,
            attestation_suffix,
            created_at,
            r,
        ),
        r is Ok,
    ensures
        forall|k: Seq<char>|
            r->Ok_0.1.disclosed_fields.view().dom().contains(k) ==> exists|i: int|
                0 <= i < template.fields@.len() && #[trigger] template.fields@[i].name@ == k
                    && strings_contain(request_mask.disclosed_paths@, template.fields@[i].json_path@),
{
    assert(chosen_mask(Some(request_mask), template) == request_mask);
    law_notarized_attestation_reveals_only_masked_fields(
        template,
        request_mask,
        response_body,
        seed,
        session_id,
        proof_at,
        attestation_suffix,
        created_at,
        r,
    );
    assert forall|k: Seq<char>|
        r->Ok_0.1.disclosed_fields.view().dom().contains(k) implies exists|i: int|
            0 <= i < template.fields@.len() && #[trigger] template.fields@[i].name@ == k
                && strings_contain(request_mask.disclosed_paths@, template.fields@[i].json_path@) by {
        assert(disclosed_by_mask(template.fields@, request_mask, k));
    }
}

} // verus!
