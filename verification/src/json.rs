//! JSON documents as the notary reads them: a tree of values, with the
//! compact text form that relying parties hash, and dot-separated paths into
//! nested objects.

use vstd::prelude::*;
use vstd::utf8::encode_utf8;

verus! {

/// A JSON value.
///
/// Numbers are kept as their JSON text (for example `42` or `-1.5`), so that
/// they are written back exactly as they were read.
#[derive(Debug)]
pub enum JsonValue {
    Null,
    Bool(bool),
    Number(String),
    Str(String),
    Array(Vec<JsonValue>),
    /// Members in document order; keys are distinct.
    Object(Vec<JsonEntry>),
}

/// One member of a JSON object.
#[derive(Debug)]
pub struct JsonEntry {
    pub key: String,
    pub value: JsonValue,
}

/// The mathematical content of a JSON value.
pub enum JsonTree {
    Null,
    Bool(bool),
    Number(Seq<char>),
    Str(Seq<char>),
    Array(Seq<JsonTree>),
    Object(Seq<(Seq<char>, JsonTree)>),
}

impl JsonValue {
    /// The content of this value.
    pub open spec fn tree(&self) -> JsonTree
        decreases self,
    {
        match self {
            JsonValue::Null => JsonTree::Null,
            JsonValue::Bool(b) => JsonTree::Bool(*b),
            JsonValue::Number(n) => JsonTree::Number(n@),
            JsonValue::Str(s) => JsonTree::Str(s@),
            JsonValue::Array(items) => JsonTree::Array(trees_of(items@)),
            JsonValue::Object(entries) => JsonTree::Object(entry_trees_of(entries@)),
        }
    }
}

/// The contents of a sequence of values.
pub open spec fn trees_of(items: Seq<JsonValue>) -> Seq<JsonTree>
    decreases items,
{
    if items.len() == 0 {
        Seq::empty()
    } else {
        trees_of(items.drop_last()).push(items.last().tree())
    }
}

/// The contents of a sequence of object members.
pub open spec fn entry_trees_of(entries: Seq<JsonEntry>) -> Seq<(Seq<char>, JsonTree)>
    decreases entries,
{
    if entries.len() == 0 {
        Seq::empty()
    } else {
        entry_trees_of(entries.drop_last()).push(
            (entries.last().key@, entries.last().value.tree()),
        )
    }
}

/// `trees_of` maps each element to its content.
pub proof fn lemma_trees_of(items: Seq<JsonValue>)
    ensures
        trees_of(items).len() == items.len(),
        forall|i: int| 0 <= i < items.len() ==> #[trigger] trees_of(items)[i] == items[i].tree(),
    decreases items.len(),
{
    if items.len() > 0 {
        lemma_trees_of(items.drop_last());
    }
}

/// `entry_trees_of` maps each member to its key and content.
pub proof fn lemma_entry_trees_of(entries: Seq<JsonEntry>)
    ensures
        entry_trees_of(entries).len() == entries.len(),
        forall|i: int|
            0 <= i < entries.len() ==> #[trigger] entry_trees_of(entries)[i] == (
                entries[i].key@,
                entries[i].value.tree(),
            ),
    decreases entries.len(),
{
    if entries.len() > 0 {
        lemma_entry_trees_of(entries.drop_last());
    }
}

impl JsonValue {
    /// A copy of this value with the same content.
    pub fn copy(&self) -> (v: JsonValue)
        ensures
            v.tree() == self.tree(),
        decreases self,
    {
        match self {
            JsonValue::Null => JsonValue::Null,
            JsonValue::Bool(b) => JsonValue::Bool(*b),
            JsonValue::Number(n) => JsonValue::Number(n.clone()),
            JsonValue::Str(s) => JsonValue::Str(s.clone()),
            JsonValue::Array(items) => {
                let mut out: Vec<JsonValue> = Vec::new();
                let n = items.len();
                for i in 0..n
                    invariant
                        n == items@.len(),
                        *self == JsonValue::Array(*items),
                        out@.len() == i,
                        forall|j: int| 0 <= j < i ==> #[trigger] out@[j].tree() == items@[j].tree(),
                {
                    proof {
                        broadcast use vstd::std_specs::vec::axiom_vec_index_decreases;
                        assert(decreases_to!(*self => (*self)->Array_0));
                        assert(decreases_to!(*items => items[i as int]));
                        assert(decreases_to!(*self => items@[i as int]));
                    }
                    out.push(items[i].copy());
                }
                proof {
                    lemma_trees_of(items@);
                    lemma_trees_of(out@);
                    assert(trees_of(out@) =~= trees_of(items@));
                }
                JsonValue::Array(out)
            },
            JsonValue::Object(entries) => {
                let mut out: Vec<JsonEntry> = Vec::new();
                let n = entries.len();
                for i in 0..n
                    invariant
                        n == entries@.len(),
                        *self == JsonValue::Object(*entries),
                        out@.len() == i,
                        forall|j: int|
                            #![trigger out@[j]]
                            0 <= j < i ==> out@[j].key@ == entries@[j].key@ && out@[j].value.tree()
                                == entries@[j].value.tree(),
                {
                    proof {
                        broadcast use vstd::std_specs::vec::axiom_vec_index_decreases;
                        assert(decreases_to!(*self => (*self)->Object_0));
                        assert(decreases_to!(*entries => entries[i as int]));
                        assert(decreases_to!(entries[i as int] => entries[i as int].value));
                        assert(decreases_to!(*self => entries@[i as int].value));
                    }
                    let key = entries[i].key.clone();
                    let value = entries[i].value.copy();
                    out.push(JsonEntry { key, value });
                    assert(out@[i as int].key@ == entries@[i as int].key@);
                }
                proof {
                    lemma_entry_trees_of(entries@);
                    lemma_entry_trees_of(out@);
                    assert(entry_trees_of(out@) =~= entry_trees_of(entries@));
                }
                JsonValue::Object(out)
            },
        }
    }
}

/// The byte of the lowercase hexadecimal digit for a nibble.
pub open spec fn hex_digit_byte(nibble: u8) -> u8 {
    if nibble < 10 {
        (48 + nibble) as u8
    } else {
        (87 + nibble) as u8
    }
}

/// How a byte of a string's UTF-8 text is written inside a JSON string
/// literal: quote and backslash are escaped, control characters use their
/// short escape where JSON has one and `\u00XX` otherwise; every other byte is
/// written as it is.
pub open spec fn escape_byte(b: u8) -> Seq<u8> {
    if b == 0x22 {
        seq![0x5cu8, 0x22u8]
    } else if b == 0x5c {
        seq![0x5cu8, 0x5cu8]
    } else if b == 0x08 {
        seq![0x5cu8, 0x62u8]
    } else if b == 0x0c {
        seq![0x5cu8, 0x66u8]
    } else if b == 0x0a {
        seq![0x5cu8, 0x6eu8]
    } else if b == 0x0d {
        seq![0x5cu8, 0x72u8]
    } else if b == 0x09 {
        seq![0x5cu8, 0x74u8]
    } else if b < 0x20 {
        seq![0x5cu8, 0x75u8, 0x30u8, 0x30u8, hex_digit_byte(b / 16), hex_digit_byte(b % 16)]
    } else {
        seq![b]
    }
}

/// The escaped form of a byte string.
pub open spec fn escape_bytes(bytes: Seq<u8>) -> Seq<u8>
    decreases bytes.len(),
{
    if bytes.len() == 0 {
        Seq::empty()
    } else {
        escape_bytes(bytes.drop_last()) + escape_byte(bytes.last())
    }
}

/// A JSON string literal holding the given characters.
pub open spec fn quoted_bytes(text: Seq<char>) -> Seq<u8> {
    seq![0x22u8] + escape_bytes(encode_utf8(text)) + seq![0x22u8]
}

/// The compact JSON text of a value, as UTF-8 bytes: no whitespace, members
/// and elements separated by commas, members written `"key":value`.
pub open spec fn tree_bytes(t: JsonTree) -> Seq<u8>
    decreases t,
{
    match t {
        JsonTree::Null => seq![0x6eu8, 0x75u8, 0x6cu8, 0x6cu8],
        JsonTree::Bool(b) => if b {
            seq![0x74u8, 0x72u8, 0x75u8, 0x65u8]
        } else {
            seq![0x66u8, 0x61u8, 0x6cu8, 0x73u8, 0x65u8]
        },
        JsonTree::Number(n) => encode_utf8(n),
        JsonTree::Str(text) => quoted_bytes(text),
        JsonTree::Array(items) => seq![0x5bu8] + list_bytes(items) + seq![0x5du8],
        JsonTree::Object(members) => seq![0x7bu8] + members_bytes(members) + seq![0x7du8],
    }
}

/// The comma-separated texts of array elements.
pub open spec fn list_bytes(items: Seq<JsonTree>) -> Seq<u8>
    decreases items,
{
    if items.len() == 0 {
        Seq::empty()
    } else if items.len() == 1 {
        tree_bytes(items[0])
    } else {
        list_bytes(items.drop_last()) + seq![0x2cu8] + tree_bytes(items.last())
    }
}

/// The comma-separated texts of object members.
pub open spec fn members_bytes(members: Seq<(Seq<char>, JsonTree)>) -> Seq<u8>
    decreases members,
{
    if members.len() == 0 {
        Seq::empty()
    } else {
        let last = members.last();
        let member = quoted_bytes(last.0) + seq![0x3au8] + tree_bytes(last.1);
        if members.len() == 1 {
            member
        } else {
            members_bytes(members.drop_last()) + seq![0x2cu8] + member
        }
    }
}

/// Append a byte string to a buffer.
pub fn append_bytes(out: &mut Vec<u8>, bytes: &[u8])
    ensures
        final(out)@ == old(out)@ + bytes@,
{
    let n = bytes.len();
    for i in 0..n
        invariant
            n == bytes@.len(),
            out@ == old(out)@ + bytes@.take(i as int),
    {
        out.push(bytes[i]);
        assert(bytes@.take(i + 1) =~= bytes@.take(i as int).push(bytes@[i as int]));
    }
    assert(bytes@.take(n as int) =~= bytes@);
}

/// Append the escaped form of one byte.
fn write_escaped_byte(out: &mut Vec<u8>, b: u8)
    ensures
        final(out)@ == old(out)@ + escape_byte(b),
{
    if b == 0x22 {
        out.push(0x5c);
        out.push(0x22);
    } else if b == 0x5c {
        out.push(0x5c);
        out.push(0x5c);
    } else if b == 0x08 {
        out.push(0x5c);
        out.push(0x62);
    } else if b == 0x0c {
        out.push(0x5c);
        out.push(0x66);
    } else if b == 0x0a {
        out.push(0x5c);
        out.push(0x6e);
    } else if b == 0x0d {
        out.push(0x5c);
        out.push(0x72);
    } else if b == 0x09 {
        out.push(0x5c);
        out.push(0x74);
    } else if b < 0x20 {
        let high = b / 16;
        let low = b % 16;
        out.push(0x5c);
        out.push(0x75);
        out.push(0x30);
        out.push(0x30);
        out.push(if high < 10 { 48 + high } else { 87 + high });
        out.push(if low < 10 { 48 + low } else { 87 + low });
    } else {
        out.push(b);
    }
    assert(out@ =~= old(out)@ + escape_byte(b));
}

/// Append a JSON string literal holding `text`.
fn write_quoted(out: &mut Vec<u8>, text: &str)
    ensures
        final(out)@ == old(out)@ + quoted_bytes(text@),
{
    let bytes = text.as_bytes();
    out.push(0x22);
    let n = bytes.len();
    for i in 0..n
        invariant
            n == bytes@.len(),
            bytes@ == encode_utf8(text@),
            out@ == old(out)@ + seq![0x22u8] + escape_bytes(bytes@.take(i as int)),
    {
        write_escaped_byte(out, bytes[i]);
        assert(bytes@.take(i + 1).drop_last() =~= bytes@.take(i as int));
    }
    assert(bytes@.take(n as int) =~= bytes@);
    out.push(0x22);
    assert(out@ =~= old(out)@ + quoted_bytes(text@));
}

/// Append the compact JSON text of a value.
pub fn write_json(out: &mut Vec<u8>, v: &JsonValue)
    ensures
        final(out)@ == old(out)@ + tree_bytes(v.tree()),
    decreases v,
{
    match v {
        JsonValue::Null => {
            out.push(0x6e);
            out.push(0x75);
            out.push(0x6c);
            out.push(0x6c);
            assert(out@ =~= old(out)@ + tree_bytes(v.tree()));
        },
        JsonValue::Bool(b) => {
            if *b {
                out.push(0x74);
                out.push(0x72);
                out.push(0x75);
                out.push(0x65);
            } else {
                out.push(0x66);
                out.push(0x61);
                out.push(0x6c);
                out.push(0x73);
                out.push(0x65);
            }
            assert(out@ =~= old(out)@ + tree_bytes(v.tree()));
        },
        JsonValue::Number(n) => {
            append_bytes(out, n.as_str().as_bytes());
        },
        JsonValue::Str(text) => {
            write_quoted(out, text.as_str());
        },
        JsonValue::Array(items) => {
            proof {
                lemma_trees_of(items@);
            }
            let ghost trees = trees_of(items@);
            out.push(0x5b);
            let n = items.len();
            for i in 0..n
                invariant
                    n == items@.len(),
                    *v == JsonValue::Array(*items),
                    trees == trees_of(items@),
                    trees.len() == n,
                    forall|j: int| 0 <= j < n ==> #[trigger] trees[j] == items@[j].tree(),
                    out@ == old(out)@ + seq![0x5bu8] + list_bytes(trees.take(i as int)),
            {
                if i > 0 {
                    out.push(0x2c);
                }
                proof {
                    broadcast use vstd::std_specs::vec::axiom_vec_index_decreases;
                    assert(decreases_to!(*v => (*v)->Array_0));
                    assert(decreases_to!(*items => items[i as int]));
                }
                write_json(out, &items[i]);
                assert(trees.take(i + 1).drop_last() =~= trees.take(i as int));
                assert(trees.take(i + 1).last() == items@[i as int].tree());
                if i == 0 {
                    assert(trees.take(1) =~= seq![trees[0]]);
                }
                assert(out@ =~= old(out)@ + seq![0x5bu8] + list_bytes(trees.take(i + 1)));
            }
            assert(trees.take(n as int) =~= trees);
            out.push(0x5d);
            assert(out@ =~= old(out)@ + tree_bytes(v.tree()));
        },
        JsonValue::Object(entries) => {
            proof {
                lemma_entry_trees_of(entries@);
            }
            let ghost members = entry_trees_of(entries@);
            out.push(0x7b);
            let n = entries.len();
            for i in 0..n
                invariant
                    n == entries@.len(),
                    *v == JsonValue::Object(*entries),
                    members == entry_trees_of(entries@),
                    members.len() == n,
                    forall|j: int|
                        0 <= j < n ==> #[trigger] members[j] == (
                            entries@[j].key@,
                            entries@[j].value.tree(),
                        ),
                    out@ == old(out)@ + seq![0x7bu8] + members_bytes(members.take(i as int)),
            {
                if i > 0 {
                    out.push(0x2c);
                }
                let ghost before = out@;
                write_quoted(out, entries[i].key.as_str());
                out.push(0x3a);
                proof {
                    broadcast use vstd::std_specs::vec::axiom_vec_index_decreases;
                    assert(decreases_to!(*v => (*v)->Object_0));
                    assert(decreases_to!(*entries => entries[i as int]));
                    assert(decreases_to!(entries[i as int] => entries[i as int].value));
                }
                write_json(out, &entries[i].value);
                assert(members.take(i + 1).drop_last() =~= members.take(i as int));
                assert(members.take(i + 1).last() == members[i as int]);
                if i == 0 {
                    assert(members.take(1) =~= seq![members[0]]);
                }
                assert(out@ =~= old(out)@ + seq![0x7bu8] + members_bytes(members.take(i + 1)));
            }
            assert(members.take(n as int) =~= members);
            out.push(0x7d);
            assert(out@ =~= old(out)@ + tree_bytes(v.tree()));
        },
    }
}

/// The content of the member named `key`, when `t` is an object that has one.
pub open spec fn tree_member(t: JsonTree, key: Seq<char>) -> Option<JsonTree> {
    match t {
        JsonTree::Object(members) => members_lookup(members, key),
        _ => None,
    }
}

/// The value of the first member named `key`.
pub open spec fn members_lookup(members: Seq<(Seq<char>, JsonTree)>, key: Seq<char>) -> Option<
    JsonTree,
>
    decreases members.len(),
{
    if members.len() == 0 {
        None
    } else if members[0].0 == key {
        Some(members[0].1)
    } else {
        members_lookup(members.drop_first(), key)
    }
}

/// The index of the first `.` in `p`, or -1 when there is none.
pub open spec fn dot_index(p: Seq<char>) -> int
    decreases p.len(),
{
    if p.len() == 0 {
        -1
    } else if p[0] == '.' {
        0
    } else {
        let r = dot_index(p.drop_first());
        if r < 0 {
            -1
        } else {
            r + 1
        }
    }
}

/// `dot_index` is -1 or the index of a `.` that no `.` precedes.
pub proof fn lemma_dot_index(p: Seq<char>)
    ensures
        -1 <= dot_index(p) < p.len(),
        dot_index(p) >= 0 ==> p[dot_index(p)] == '.',
        forall|j: int| 0 <= j < p.len() && (dot_index(p) < 0 || j < dot_index(p)) ==> p[j] != '.',
    decreases p.len(),
{
    if p.len() > 0 && p[0] != '.' {
        lemma_dot_index(p.drop_first());
        assert forall|j: int|
            0 <= j < p.len() && (dot_index(p) < 0 || j < dot_index(p)) implies p[j] != '.' by {
            if j > 0 {
                assert(p[j] == p.drop_first()[j - 1]);
            }
        }
    }
}

/// A `.` at `k` with no `.` before it is the first one.
proof fn lemma_dot_index_at(p: Seq<char>, k: int)
    requires
        0 <= k <= p.len(),
        forall|j: int| 0 <= j < k ==> p[j] != '.',
        k < p.len() ==> p[k] == '.',
    ensures
        dot_index(p) == (if k < p.len() { k } else { -1 }),
    decreases p.len(),
{
    if p.len() > 0 && k > 0 {
        let q = p.drop_first();
        assert forall|j: int| 0 <= j < k - 1 implies q[j] != '.' by {
            assert(q[j] == p[j + 1]);
        }
        lemma_dot_index_at(q, k - 1);
    }
}

/// The pieces of a dot-separated path (`"a.b"` gives `a` and `b`; a path
/// without a dot is a single piece; empty pieces are kept).
pub open spec fn path_segments(p: Seq<char>) -> Seq<Seq<char>>
    decreases p.len(),
{
    let d = dot_index(p);
    if d < 0 {
        seq![p]
    } else {
        proof {
            lemma_dot_index(p);
        }
        seq![p.take(d)] + path_segments(p.skip(d + 1))
    }
}

/// The value reached from `t` by following the member names in `segments`.
pub open spec fn tree_at(t: JsonTree, segments: Seq<Seq<char>>) -> Option<JsonTree>
    decreases segments.len(),
{
    if segments.len() == 0 {
        Some(t)
    } else {
        match tree_member(t, segments[0]) {
            Some(child) => tree_at(child, segments.drop_first()),
            None => None,
        }
    }
}

/// The value at a dot-separated path in `t`.
pub open spec fn tree_at_path(t: JsonTree, path: Seq<char>) -> Option<JsonTree> {
    tree_at(t, path_segments(path))
}

/// The content of an optional value.
pub open spec fn option_tree(v: Option<&JsonValue>) -> Option<JsonTree> {
    match v {
        Some(v) => Some(v.tree()),
        None => None,
    }
}

/// Whether two strings hold the same characters.
pub fn str_eq(a: &str, b: &str) -> (same: bool)
    ensures
        same == (a@ == b@),
{
    let n = a.unicode_len();
    if n != b.unicode_len() {
        return false;
    }
    for i in 0..n
        invariant
            n == a@.len(),
            n == b@.len(),
            forall|j: int| 0 <= j < i ==> a@[j] == b@[j],
    {
        if a.get_char(i) != b.get_char(i) {
            return false;
        }
    }
    assert(a@ =~= b@);
    true
}

/// The member named `key` of an object value.
pub fn member<'a>(v: &'a JsonValue, key: &str) -> (child: Option<&'a JsonValue>)
    ensures
        option_tree(child) == tree_member(v.tree(), key@),
{
    match v {
        JsonValue::Object(entries) => {
            proof {
                lemma_entry_trees_of(entries@);
            }
            let ghost members = entry_trees_of(entries@);
            let n = entries.len();
            assert(members.skip(0) =~= members);
            for i in 0..n
                invariant
                    n == entries@.len(),
                    *v == JsonValue::Object(*entries),
                    members == entry_trees_of(entries@),
                    members.len() == n,
                    forall|j: int|
                        0 <= j < n ==> #[trigger] members[j] == (
                            entries@[j].key@,
                            entries@[j].value.tree(),
                        ),
                    members_lookup(members, key@) == members_lookup(members.skip(i as int), key@),
            {
                let ghost rest = members.skip(i as int);
                assert(rest[0] == members[i as int]);
                assert(rest.drop_first() =~= members.skip(i + 1));
                if str_eq(entries[i].key.as_str(), key) {
                    return Some(&entries[i].value);
                }
            }
            assert(members.skip(n as int).len() == 0);
            None
        },
        _ => None,
    }
}

/// Navigate a dot-separated path (for example `voter.status`) through nested
/// objects.
pub fn navigate_json_path<'a>(root: &'a JsonValue, path: &str) -> (found: Option<&'a JsonValue>)
    ensures
        option_tree(found) == tree_at_path(root.tree(), path@),
{
    let n = path.unicode_len();
    let mut current = root;
    let mut start: usize = 0;
    let mut i: usize = 0;
    assert(path@.skip(0) =~= path@);
    while i < n
        invariant
            n == path@.len(),
            start <= i <= n,
            forall|j: int| start <= j < i ==> path@[j] != '.',
            tree_at_path(root.tree(), path@) == tree_at_path(current.tree(), path@.skip(start as int)),
        decreases n - i,
    {
        if path.get_char(i) == '.' {
            let ghost q = path@.skip(start as int);
            proof {
                assert forall|j: int| 0 <= j < i - start implies q[j] != '.' by {
                    assert(q[j] == path@[start + j]);
                }
                lemma_dot_index_at(q, i - start);
                assert(q.take(i - start) =~= path@.subrange(start as int, i as int));
                assert(q.skip(i - start + 1) =~= path@.skip(i + 1));
                let segs = path_segments(q);
                assert(segs == seq![q.take(i - start)] + path_segments(q.skip(i - start + 1)));
                assert(segs[0] == q.take(i - start));
                assert(segs.drop_first() =~= path_segments(path@.skip(i + 1)));
            }
            let key = path.substring_char(start, i);
            match member(current, key) {
                Some(child) => {
                    current = child;
                    start = i + 1;
                },
                None => {
                    return None;
                },
            }
        }
        i = i + 1;
    }
    let ghost q = path@.skip(start as int);
    proof {
        assert forall|j: int| 0 <= j < n - start implies q[j] != '.' by {
            assert(q[j] == path@[start + j]);
        }
        lemma_dot_index_at(q, n - start);
        assert(q =~= path@.subrange(start as int, n as int));
        assert(path_segments(q) == seq![q]);
        assert(seq![q].drop_first() =~= Seq::<Seq<char>>::empty());
    }
    let key = path.substring_char(start, n);
    let found = member(current, key);
    proof {
        if let Some(c) = found {
            assert(tree_at(c.tree(), Seq::<Seq<char>>::empty()) == Some(c.tree()));
        }
    }
    found
}


#[verifier::external_type_specification]
#[verifier::external_body]
pub struct ExSerdeJsonValue(serde_json::Value);

/// One node of a document that `serde_json` parsed: its scalar, or its
/// children (object members in the parser's order).
pub enum SerdeNode {
    Null,
    Bool(bool),
    Number(String),
    Str(String),
    Array(Vec<serde_json::Value>),
    Object(Vec<(String, serde_json::Value)>),
}

/// The top node of a `serde_json` value.
///
/// Trusted: tells the variants of `serde_json::Value` apart and moves their
/// fields out; a number becomes its `Display` text and an object map becomes
/// its members in iteration order. Nothing is stated of the opaque input.
#[verifier::external_body]
fn serde_node(v: serde_json::Value) -> SerdeNode {
    match v {
        serde_json::Value::Null => SerdeNode::Null,
        serde_json::Value::Bool(b) => SerdeNode::Bool(b),
        serde_json::Value::Number(n) => SerdeNode::Number(n.to_string()),
        serde_json::Value::String(s) => SerdeNode::Str(s),
        serde_json::Value::Array(items) => SerdeNode::Array(items),
        serde_json::Value::Object(members) => SerdeNode::Object(members.into_iter().collect()),
    }
}

/// Nesting deeper than any document `serde_json` parses (its recursion limit
/// is 128).
pub const MAX_JSON_DEPTH: u32 = 256u32;

/// The library's value for a parsed `serde_json` value, converted node by
/// node down to `depth` levels (a deeper node, which the parser never
/// produces, becomes `null`).
pub(crate) fn json_value_from_serde(v: serde_json::Value, depth: u32) -> (r: JsonValue)
    decreases depth,
{
    if depth == 0 {
        return JsonValue::Null;
    }
    match serde_node(v) {
        SerdeNode::Null => JsonValue::Null,
        SerdeNode::Bool(b) => JsonValue::Bool(b),
        SerdeNode::Number(n) => JsonValue::Number(n),
        SerdeNode::Str(s) => JsonValue::Str(s),
        SerdeNode::Array(items) => {
            let mut out: Vec<JsonValue> = Vec::new();
            let mut rest = items;
            while rest.len() > 0
                invariant
                    depth > 0,
                decreases rest.len(),
            {
                let item = rest.remove(0);
                out.push(json_value_from_serde(item, depth - 1));
            }
            JsonValue::Array(out)
        },
        SerdeNode::Object(members) => {
            let mut out: Vec<JsonEntry> = Vec::new();
            let mut rest = members;
            while rest.len() > 0
                invariant
                    depth > 0,
                decreases rest.len(),
            {
                let (key, value) = rest.remove(0);
                out.push(JsonEntry { key, value: json_value_from_serde(value, depth - 1) });
            }
            JsonValue::Object(out)
        },
    }
}

/// The outcome of parsing a text with `serde_json::from_str` into a
/// `serde_json::Value`: the document, or the parser's error message.
pub uninterp spec fn json_parse_of(text: Seq<char>) -> Result<JsonTree, Seq<char>>;

/// Parse a JSON text.
///
/// Trusted: calls `serde_json::from_str::<serde_json::Value>` and converts the
/// value with `json_value_from_serde`; the error is the `Display` text of
/// `serde_json::Error`. The outcome is named `json_parse_of` of the text.
#[verifier::external_body]
pub fn parse_json(text: &str) -> (r: Result<JsonValue, String>)
    ensures
        json_parse_of(text@) == match r {
            Ok(v) => Ok::<JsonTree, Seq<char>>(v.tree()),
            Err(e) => Err::<JsonTree, Seq<char>>(e@),
        },
{
    serde_json::from_str::<serde_json::Value>(text).map(
        |v| json_value_from_serde(v, MAX_JSON_DEPTH),
    ).map_err(|e| e.to_string())
}

} // verus!
