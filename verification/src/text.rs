//! Small text helpers: decimal numerals, byte and string comparisons.

use vstd::prelude::*;

verus! {

/// The decimal numeral of a natural number, without leading zeros.
pub open spec fn decimal_of(n: nat) -> Seq<char>
    decreases n,
{
    if n < 10 {
        seq![(48 + n) as char]
    } else {
        decimal_of(n / 10).push((48 + n % 10) as char)
    }
}

/// Write an unsigned integer in decimal.
///
/// Trusted: calls `ToString::to_string` on a `u64`, whose `Display` writes the
/// decimal digits of the number with no sign, padding or leading zeros.
#[verifier::external_body]
pub(crate) fn decimal(n: u64) -> (text: String)
    ensures
        text@ == decimal_of(n as nat),
{
    n.to_string()
}

/// A new string holding the characters of `a` followed by those of `b`.
pub fn concat2(a: &str, b: &str) -> (s: String)
    ensures
        s@ == a@ + b@,
{
    let mut s = String::from_str(a);
    s.append(b);
    s
}

/// A new string holding the characters of `a`, `b` and `c` in turn.
pub fn concat3(a: &str, b: &str, c: &str) -> (s: String)
    ensures
        s@ == a@ + b@ + c@,
{
    let mut s = String::from_str(a);
    s.append(b);
    s.append(c);
    s
}

/// Whether two byte strings are equal.
pub fn bytes_eq(a: &[u8], b: &[u8]) -> (same: bool)
    ensures
        same == (a@ == b@),
{
    if a.len() != b.len() {
        return false;
    }
    let n = a.len();
    for i in 0..n
        invariant
            n == a@.len(),
            n == b@.len(),
            forall|j: int| 0 <= j < i ==> a@[j] == b@[j],
    {
        if a[i] != b[i] {
            return false;
        }
    }
    assert(a@ =~= b@);
    true
}

/// Whether `s` occurs in `text` at character position `at`.
pub open spec fn occurs_at(text: Seq<char>, s: Seq<char>, at: int) -> bool {
    0 <= at && at + s.len() <= text.len() && text.subrange(at, at + s.len()) == s
}

/// Whether `s` occurs anywhere in `text`.
pub open spec fn contains_seq(text: Seq<char>, s: Seq<char>) -> bool {
    exists|at: int| occurs_at(text, s, at)
}

/// Whether `needle` occurs in `text` (as `str::contains` with a string pattern).
pub fn str_contains(text: &str, needle: &str) -> (found: bool)
    ensures
        found == contains_seq(text@, needle@),
{
    let n = text.unicode_len();
    let m = needle.unicode_len();
    if m > n {
        assert forall|at: int| !occurs_at(text@, needle@, at) by {}
        return false;
    }
    let mut at: usize = 0;
    while at <= n - m
        invariant
            n == text@.len(),
            m == needle@.len(),
            m <= n,
            at <= n - m + 1,
            forall|k: int| 0 <= k < at ==> !occurs_at(text@, needle@, k),
        decreases n - m + 1 - at,
    {
        let mut j: usize = 0;
        let mut matched = true;
        while j < m
            invariant
                n == text@.len(),
                m == needle@.len(),
                at + m <= n,
                j <= m,
                matched == (forall|k: int| 0 <= k < j ==> text@[at + k] == needle@[k]),
            decreases m - j,
        {
            if text.get_char(at + j) != needle.get_char(j) {
                matched = false;
            }
            j = j + 1;
        }
        if matched {
            assert(text@.subrange(at as int, at + m) =~= needle@);
            assert(occurs_at(text@, needle@, at as int));
            return true;
        }
        assert(!occurs_at(text@, needle@, at as int)) by {
            if text@.subrange(at as int, at + m) == needle@ {
                assert forall|k: int| 0 <= k < m implies text@[at + k] == needle@[k] by {
                    assert(text@.subrange(at as int, at + m)[k] == text@[at + k]);
                }
            }
        }
        at = at + 1;
    }
    assert forall|k: int| !occurs_at(text@, needle@, k) by {
        if 0 <= k && k + m <= n {
            assert(k < at);
        }
    }
    false
}

} // verus!
