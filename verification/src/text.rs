//! Comparison of names.

use vstd::prelude::*;
use vstd::string::StringExecFns;

verus! {

/// The code point of `c`, with the ASCII capital letters mapped to their
/// small letters.
pub open spec fn ascii_lower(c: char) -> int {
    let n = c as int;
    if 65 <= n <= 90 {
        n + 32
    } else {
        n
    }
}

/// Whether `a` and `b` are the same text when the case of ASCII letters is
/// ignored.
pub open spec fn same_ignoring_ascii_case(a: Seq<char>, b: Seq<char>) -> bool {
    &&& a.len() == b.len()
    &&& forall|i: int| 0 <= i < a.len() ==> ascii_lower(#[trigger] a[i]) == ascii_lower(b[i])
}

/// Calls `str::eq_ignore_ascii_case` of std, which compares two strings byte
/// by byte after mapping the ASCII letters of both to one case. Bytes of
/// other characters are compared as they are, so the outcome is the same as
/// comparing character by character.
#[verifier::external_body]
pub(crate) fn eq_ignore_ascii_case(a: &str, b: &str) -> (same: bool)
    ensures
        same == same_ignoring_ascii_case(a@, b@),
{
    a.eq_ignore_ascii_case(b)
}

/// Tells whether `a` and `b` hold the same text.
pub fn same_text(a: &String, b: &str) -> (same: bool)
    ensures
        same == (a@ == b@),
{
    let other = String::from_str(b);
    *a == other
}

/// Two texts that are the same when case is ignored match the same texts.
pub proof fn lemma_same_ignoring_case_carries(label: Seq<char>, a: Seq<char>, b: Seq<char>)
    requires
        same_ignoring_ascii_case(a, b),
    ensures
        same_ignoring_ascii_case(label, a) == same_ignoring_ascii_case(label, b),
{
    if same_ignoring_ascii_case(label, a) {
        assert forall|i: int| 0 <= i < label.len() implies ascii_lower(#[trigger] label[i])
            == ascii_lower(b[i]) by {
            assert(ascii_lower(a[i]) == ascii_lower(b[i]));
        }
    }
    if same_ignoring_ascii_case(label, b) {
        assert forall|i: int| 0 <= i < label.len() implies ascii_lower(#[trigger] label[i])
            == ascii_lower(a[i]) by {
            assert(ascii_lower(a[i]) == ascii_lower(b[i]));
        }
    }
}

} // verus!
