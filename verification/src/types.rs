//! Core types for zkTLS identity verification: session proofs, attestations
//! with selective disclosure, and disclosure masks.

use vstd::prelude::*;
use vstd::slice::slice_to_vec;

use crate::json::{option_tree, str_eq, JsonEntry, JsonTree, JsonValue};
use crate::text::concat2;
use crate::time::Timestamp;

verus! {

/// The map from names to contents held by a sequence of members (a later
/// member with the same name wins).
pub open spec fn entries_map(entries: Seq<JsonEntry>) -> Map<Seq<char>, JsonTree>
    decreases entries.len(),
{
    if entries.len() == 0 {
        Map::empty()
    } else {
        entries_map(entries.drop_last()).insert(entries.last().key@, entries.last().value.tree())
    }
}

/// Whether no two members share a name.
pub open spec fn distinct_keys(entries: Seq<JsonEntry>) -> bool {
    forall|i: int, j: int|
        0 <= i < j < entries.len() ==> #[trigger] entries[i].key@ != #[trigger] entries[j].key@
}

proof fn lemma_entries_map(entries: Seq<JsonEntry>)
    requires
        distinct_keys(entries),
    ensures
        entries_map(entries).dom().finite(),
        entries_map(entries).dom().len() == entries.len(),
        forall|i: int|
            0 <= i < entries.len() ==> #[trigger] entries_map(entries).contains_key(entries[i].key@)
                && entries_map(entries)[entries[i].key@] == entries[i].value.tree(),
        forall|k: Seq<char>|
            #[trigger] entries_map(entries).contains_key(k) ==> exists|i: int|
                0 <= i < entries.len() && entries[i].key@ == k,
    decreases entries.len(),
{
    if entries.len() > 0 {
        let prefix = entries.drop_last();
        assert(distinct_keys(prefix)) by {
            assert forall|i: int, j: int| 0 <= i < j < prefix.len() implies #[trigger] prefix[i].key@
                != #[trigger] prefix[j].key@ by {
                assert(prefix[i] == entries[i] && prefix[j] == entries[j]);
            }
        }
        lemma_entries_map(prefix);
        let last = entries.last();
        assert(!entries_map(prefix).contains_key(last.key@)) by {
            if entries_map(prefix).contains_key(last.key@) {
                let i = choose|i: int| 0 <= i < prefix.len() && prefix[i].key@ == last.key@;
                assert(entries[i].key@ == entries[entries.len() - 1].key@);
            }
        }
        assert forall|i: int| 0 <= i < entries.len() implies #[trigger] entries_map(
            entries,
        ).contains_key(entries[i].key@) && entries_map(entries)[entries[i].key@]
            == entries[i].value.tree() by {
            if i < entries.len() - 1 {
                assert(entries[i] == prefix[i]);
            }
        }
        assert forall|k: Seq<char>| #[trigger] entries_map(entries).contains_key(k) implies exists|
            i: int,
        | 0 <= i < entries.len() && entries[i].key@ == k by {
            if k != last.key@ {
                let i = choose|i: int| 0 <= i < prefix.len() && prefix[i].key@ == k;
                assert(entries[i] == prefix[i]);
            } else {
                assert(entries[entries.len() - 1].key@ == k);
            }
        }
    }
}

/// The index of the member named `name`, if any.
fn position(entries: &Vec<JsonEntry>, name: &str) -> (at: Option<usize>)
    ensures
        match at {
            Some(i) => i < entries@.len() && entries@[i as int].key@ == name@,
            None => forall|j: int| 0 <= j < entries@.len() ==> entries@[j].key@ != name@,
        },
{
    for i in 0..entries.len()
        invariant
            forall|j: int| 0 <= j < i ==> entries@[j].key@ != name@,
    {
        if str_eq(entries[i].key.as_str(), name) {
            return Some(i);
        }
    }
    None
}

/// Named JSON values, for example the fields disclosed from a response.
#[derive(Debug)]
pub struct FieldMap {
    entries: Vec<JsonEntry>,
}

impl FieldMap {
    #[verifier::type_invariant]
    spec fn inv(self) -> bool {
        distinct_keys(self.entries@)
    }

    /// The names and contents held.
    pub closed spec fn view(&self) -> Map<Seq<char>, JsonTree> {
        entries_map(self.entries@)
    }

    /// An empty map.
    pub fn new() -> (m: FieldMap)
        ensures
            m.view() == Map::<Seq<char>, JsonTree>::empty(),
    {
        FieldMap { entries: Vec::new() }
    }

    /// The number of names held.
    pub fn len(&self) -> (n: usize)
        ensures
            n == self.view().dom().len(),
    {
        proof {
            use_type_invariant(self);
            lemma_entries_map(self.entries@);
        }
        self.entries.len()
    }

    /// The value held under `name`.
    pub fn get(&self, name: &str) -> (v: Option<&JsonValue>)
        ensures
            option_tree(v) == (if self.view().contains_key(name@) {
                Some(self.view()[name@])
            } else {
                None
            }),
    {
        proof {
            use_type_invariant(self);
            lemma_entries_map(self.entries@);
        }
        match position(&self.entries, name) {
            Some(i) => {
                assert(entries_map(self.entries@).contains_key(self.entries@[i as int].key@));
                Some(&self.entries[i].value)
            },
            None => {
                proof {
                    if self.view().contains_key(name@) {
                        let i = choose|i: int|
                            0 <= i < self.entries@.len() && self.entries@[i].key@ == name@;
                    }
                }
                None
            },
        }
    }

    /// Hold `value` under `name`, replacing any value held there before.
    pub fn insert(&mut self, name: String, value: JsonValue)
        ensures
            final(self).view() == old(self).view().insert(name@, value.tree()),
    {
        proof {
            use_type_invariant(&*self);
            lemma_entries_map(self.entries@);
        }
        let ghost before = self.entries@;
        let at = position(&self.entries, name.as_str());
        let n = self.entries.len();
        let found: usize = match at {
            Some(i) => i,
            None => n,
        };
        if found < n {
            let entry = JsonEntry { key: name, value };
            let ghost new_entries = before.update(found as int, entry);
            proof {
                assert(distinct_keys(new_entries)) by {
                    assert forall|i: int, j: int|
                        0 <= i < j < new_entries.len() implies #[trigger] new_entries[i].key@
                        != #[trigger] new_entries[j].key@ by {
                        if i != found && j != found {
                            assert(new_entries[i] == before[i] && new_entries[j] == before[j]);
                        }
                    }
                }
                lemma_entries_map(new_entries);
                assert(entries_map(new_entries) =~= entries_map(before).insert(name@, value.tree()))
                    by {
                    assert forall|k: Seq<char>| #[trigger] entries_map(new_entries).contains_key(k)
                        <==> entries_map(before).insert(name@, value.tree()).contains_key(k) by {
                        if entries_map(new_entries).contains_key(k) {
                            let i = choose|i: int|
                                0 <= i < new_entries.len() && new_entries[i].key@ == k;
                            if i != found {
                                assert(new_entries[i] == before[i]);
                            }
                        }
                        if entries_map(before).contains_key(k) && k != name@ {
                            let i = choose|i: int| 0 <= i < before.len() && before[i].key@ == k;
                            assert(new_entries[i] == before[i]);
                            assert(entries_map(new_entries).contains_key(new_entries[i].key@));
                        }
                        if k == name@ {
                            assert(entries_map(new_entries).contains_key(
                                new_entries[found as int].key@,
                            ));
                        }
                    }
                    assert forall|k: Seq<char>| #[trigger]
                        entries_map(new_entries).contains_key(k) implies entries_map(new_entries)[k]
                        == entries_map(before).insert(name@, value.tree())[k] by {
                        let i = choose|i: int|
                            0 <= i < new_entries.len() && new_entries[i].key@ == k;
                        if i != found {
                            assert(new_entries[i] == before[i]);
                        }
                    }
                }
            }
            let mut entries: Vec<JsonEntry> = Vec::new();
            std::mem::swap(&mut entries, &mut self.entries);
            entries.set(found, entry);
            self.entries = entries;
        } else {
            let entry = JsonEntry { key: name, value };
            let ghost new_entries = before.push(entry);
            proof {
                assert(distinct_keys(new_entries)) by {
                    assert forall|i: int, j: int|
                        0 <= i < j < new_entries.len() implies #[trigger] new_entries[i].key@
                        != #[trigger] new_entries[j].key@ by {
                        assert(new_entries[i] == before[i]);
                        if j < before.len() {
                            assert(new_entries[j] == before[j]);
                        }
                    }
                }
                assert(new_entries.drop_last() =~= before);
            }
            let mut entries: Vec<JsonEntry> = Vec::new();
            std::mem::swap(&mut entries, &mut self.entries);
            entries.push(entry);
            self.entries = entries;
        }
    }

    /// The members held, each name once, in the order they were first
    /// inserted.
    pub fn entries(&self) -> (e: &Vec<JsonEntry>)
        ensures
            entries_map(e@) == self.view(),
            distinct_keys(e@),
    {
        proof {
            use_type_invariant(self);
        }
        &self.entries
    }

    /// A copy holding the same names and contents.
    pub fn copy(&self) -> (m: FieldMap)
        ensures
            m.view() == self.view(),
    {
        proof {
            use_type_invariant(self);
        }
        let mut out: Vec<JsonEntry> = Vec::new();
        let n = self.entries.len();
        for i in 0..n
            invariant
                n == self.entries@.len(),
                distinct_keys(self.entries@),
                out@.len() == i,
                forall|j: int|
                    #![trigger out@[j]]
                    0 <= j < i ==> out@[j].key@ == self.entries@[j].key@ && out@[j].value.tree()
                        == self.entries@[j].value.tree(),
        {
            let key = self.entries[i].key.clone();
            let value = self.entries[i].value.copy();
            out.push(JsonEntry { key, value });
        }
        proof {
            assert(distinct_keys(out@)) by {
                assert forall|i: int, j: int| 0 <= i < j < out@.len() implies #[trigger] out@[i].key@
                    != #[trigger] out@[j].key@ by {
                    assert(self.entries@[i].key@ != self.entries@[j].key@);
                }
            }
            lemma_entries_map(out@);
            lemma_entries_map(self.entries@);
            assert(entries_map(out@) =~= entries_map(self.entries@)) by {
                assert forall|k: Seq<char>| #[trigger] entries_map(out@).contains_key(k)
                    <==> entries_map(self.entries@).contains_key(k) by {
                    if entries_map(out@).contains_key(k) {
                        let i = choose|i: int| 0 <= i < out@.len() && out@[i].key@ == k;
                        assert(self.entries@[i].key@ == k);
                    }
                    if entries_map(self.entries@).contains_key(k) {
                        let i = choose|i: int|
                            0 <= i < self.entries@.len() && self.entries@[i].key@ == k;
                        assert(out@[i].key@ == k);
                    }
                }
                assert forall|k: Seq<char>| #[trigger]
                    entries_map(out@).contains_key(k) implies entries_map(out@)[k] == entries_map(
                    self.entries@,
                )[k] by {
                    let i = choose|i: int| 0 <= i < out@.len() && out@[i].key@ == k;
                    assert(self.entries@[i].key@ == k);
                }
            }
        }
        FieldMap { entries: out }
    }
}

/// A copy of a byte vector.
pub fn copy_bytes(v: &Vec<u8>) -> (c: Vec<u8>)
    ensures
        c@ == v@,
{
    slice_to_vec(v.as_slice())
}

/// A copy of a list of byte vectors.
pub fn copy_byte_lists(v: &Vec<Vec<u8>>) -> (c: Vec<Vec<u8>>)
    ensures
        c@.len() == v@.len(),
        forall|i: int| 0 <= i < v@.len() ==> #[trigger] c@[i]@ == v@[i]@,
{
    let mut out: Vec<Vec<u8>> = Vec::new();
    for i in 0..v.len()
        invariant
            out@.len() == i,
            forall|j: int| 0 <= j < i ==> #[trigger] out@[j]@ == v@[j]@,
    {
        out.push(copy_bytes(&v[i]));
    }
    out
}

/// Errors that can occur when working with core zkTLS types.
#[derive(Debug)]
pub enum CoreError {
    /// The proof data failed structural validation.
    InvalidProof(String),
    /// A required field was missing from the attestation.
    MissingField(String),
    /// The selective disclosure mask references fields that do not exist.
    UnknownField(String),
    /// Serialization or deserialization failed (with the serializer's message).
    Serialization(String),
}

impl CoreError {
    /// The text of this error.
    pub open spec fn spec_message(&self) -> Seq<char> {
        match self {
            CoreError::InvalidProof(s) => "invalid proof structure: "@ + s@,
            CoreError::MissingField(s) => "missing required field: "@ + s@,
            CoreError::UnknownField(s) => "disclosure mask references unknown field: "@ + s@,
            CoreError::Serialization(s) => "serialization error: "@ + s@,
        }
    }

    /// The human-readable text of this error.
    pub fn message(&self) -> (text: String)
        ensures
            text@ == self.spec_message(),
    {
        match self {
            CoreError::InvalidProof(s) => concat2("invalid proof structure: ", s.as_str()),
            CoreError::MissingField(s) => concat2("missing required field: ", s.as_str()),
            CoreError::UnknownField(s) => concat2(
                "disclosure mask references unknown field: ",
                s.as_str(),
            ),
            CoreError::Serialization(s) => concat2("serialization error: ", s.as_str()),
        }
    }
}

/// A cryptographic proof that a TLS session occurred between a client and
/// server, co-signed by a trusted notary.
///
/// It holds the server's identity (hostname and certificate hash), a
/// commitment to the TLS transcript, the notary's signature over that
/// commitment and the notary's public key, and two timestamps. It does not
/// hold the plaintext.
#[derive(Debug)]
pub struct SessionProof {
    /// The server hostname that was connected to.
    pub server_hostname: String,
    /// SHA-512 hash of the server's TLS certificate chain.
    pub certificate_hash: Vec<u8>,
    /// Commitment to the TLS transcript.
    pub transcript_commitment: Vec<u8>,
    /// The notary's signature over the commitment and metadata.
    pub notary_signature: Vec<u8>,
    /// Public key of the notary that co-signed this session.
    pub notary_public_key: Vec<u8>,
    /// When the TLS session was established.
    pub session_timestamp: Timestamp,
    /// When the proof was generated.
    pub proof_timestamp: Timestamp,
}

impl SessionProof {
    /// Both timestamps are well formed.
    pub open spec fn wf(&self) -> bool {
        self.session_timestamp.wf() && self.proof_timestamp.wf()
    }

    /// Whether `other` holds the same data as `self`.
    pub open spec fn same_as(&self, other: &SessionProof) -> bool {
        &&& other.server_hostname@ == self.server_hostname@
        &&& other.certificate_hash@ == self.certificate_hash@
        &&& other.transcript_commitment@ == self.transcript_commitment@
        &&& other.notary_signature@ == self.notary_signature@
        &&& other.notary_public_key@ == self.notary_public_key@
        &&& other.session_timestamp == self.session_timestamp
        &&& other.proof_timestamp == self.proof_timestamp
    }

    /// A copy of this proof.
    pub fn copy(&self) -> (p: SessionProof)
        ensures
            self.same_as(&p),
    {
        SessionProof {
            server_hostname: self.server_hostname.clone(),
            certificate_hash: copy_bytes(&self.certificate_hash),
            transcript_commitment: copy_bytes(&self.transcript_commitment),
            notary_signature: copy_bytes(&self.notary_signature),
            notary_public_key: copy_bytes(&self.notary_public_key),
            session_timestamp: self.session_timestamp.copy(),
            proof_timestamp: self.proof_timestamp.copy(),
        }
    }
}

/// A structured claim extracted from a TLS session, with selective disclosure
/// applied so that only the claimed fields are visible.
#[derive(Debug)]
pub struct Attestation {
    /// Unique identifier for this attestation.
    pub id: String,
    /// The type of claim being attested (e.g. "voter_registration").
    pub claim_type: String,
    /// Reference to the session proof that backs this attestation.
    pub session_proof_id: String,
    /// Fields that were disclosed, by name.
    pub disclosed_fields: FieldMap,
    /// SHA-512 hashes of fields that were redacted.
    pub redacted_field_hashes: Vec<Vec<u8>>,
    /// The template used to extract and validate this attestation.
    pub template_id: String,
    /// When this attestation was created.
    pub created_at: Timestamp,
    /// Optional expiration time for the attestation.
    pub expires_at: Option<Timestamp>,
}

impl Attestation {
    /// The timestamps are well formed.
    pub open spec fn wf(&self) -> bool {
        &&& self.created_at.wf()
        &&& self.expires_at matches Some(e) ==> e.wf()
    }

    /// Whether `other` holds the same data as `self`.
    pub open spec fn same_as(&self, other: &Attestation) -> bool {
        &&& other.id@ == self.id@
        &&& other.claim_type@ == self.claim_type@
        &&& other.session_proof_id@ == self.session_proof_id@
        &&& other.disclosed_fields.view() == self.disclosed_fields.view()
        &&& other.redacted_field_hashes@.len() == self.redacted_field_hashes@.len()
        &&& forall|i: int|
            0 <= i < self.redacted_field_hashes@.len() ==> #[trigger] other.redacted_field_hashes@[i]@
                == self.redacted_field_hashes@[i]@
        &&& other.template_id@ == self.template_id@
        &&& other.created_at == self.created_at
        &&& other.expires_at == self.expires_at
    }

    /// A copy of this attestation.
    pub fn copy(&self) -> (a: Attestation)
        ensures
            self.same_as(&a),
    {
        Attestation {
            id: self.id.clone(),
            claim_type: self.claim_type.clone(),
            session_proof_id: self.session_proof_id.clone(),
            disclosed_fields: self.disclosed_fields.copy(),
            redacted_field_hashes: copy_byte_lists(&self.redacted_field_hashes),
            template_id: self.template_id.clone(),
            created_at: self.created_at.copy(),
            expires_at: match &self.expires_at {
                Some(t) => Some(t.copy()),
                None => None,
            },
        }
    }
}

/// A mask that specifies which fields of a TLS response are disclosed and
/// which are redacted (replaced with their hashes).
#[derive(Debug)]
pub struct DisclosureMask {
    /// Dot-separated paths of the fields to reveal in plaintext.
    pub disclosed_paths: Vec<String>,
    /// Dot-separated paths of the fields to redact.
    pub redacted_paths: Vec<String>,
}

/// A copy of a list of strings.
pub fn copy_strings(v: &Vec<String>) -> (c: Vec<String>)
    ensures
        c@.len() == v@.len(),
        forall|i: int| 0 <= i < v@.len() ==> #[trigger] c@[i]@ == v@[i]@,
{
    let mut out: Vec<String> = Vec::new();
    for i in 0..v.len()
        invariant
            out@.len() == i,
            forall|j: int| 0 <= j < i ==> #[trigger] out@[j]@ == v@[j]@,
    {
        out.push(v[i].clone());
    }
    out
}

/// The text of each string of a list.
pub open spec fn string_views(list: Seq<String>) -> Seq<Seq<char>> {
    list.map_values(|s: String| s@)
}

/// Whether a list of strings holds `s`.
pub open spec fn strings_contain(list: Seq<String>, s: Seq<char>) -> bool {
    exists|i: int| 0 <= i < list.len() && #[trigger] list[i]@ == s
}

/// Whether `list` holds a string equal to `s` (as `contains` on a vector).
pub fn contains_string(list: &Vec<String>, s: &str) -> (found: bool)
    ensures
        found == strings_contain(list@, s@),
{
    for i in 0..list.len()
        invariant
            forall|j: int| 0 <= j < i ==> list@[j]@ != s@,
    {
        if str_eq(list[i].as_str(), s) {
            return true;
        }
    }
    false
}

impl DisclosureMask {
    /// Whether `other` lists the same paths as `self`.
    pub open spec fn same_as(&self, other: &DisclosureMask) -> bool {
        &&& other.disclosed_paths@.len() == self.disclosed_paths@.len()
        &&& forall|i: int|
            0 <= i < self.disclosed_paths@.len() ==> #[trigger] other.disclosed_paths@[i]@
                == self.disclosed_paths@[i]@
        &&& other.redacted_paths@.len() == self.redacted_paths@.len()
        &&& forall|i: int|
            0 <= i < self.redacted_paths@.len() ==> #[trigger] other.redacted_paths@[i]@
                == self.redacted_paths@[i]@
    }

    /// A copy of this mask.
    pub fn copy(&self) -> (m: DisclosureMask)
        ensures
            self.same_as(&m),
    {
        DisclosureMask {
            disclosed_paths: copy_strings(&self.disclosed_paths),
            redacted_paths: copy_strings(&self.redacted_paths),
        }
    }
}

} // verus!
