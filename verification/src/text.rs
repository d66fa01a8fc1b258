//! Character-level text helpers shared by the controllers.

use vstd::prelude::*;
use vstd::string::StrSliceExecFns;

verus! {

/// Whether two strings hold the same characters.
pub fn text_eq(a: &str, b: &str) -> (r: bool)
    ensures
        r == (a@ == b@),
{
    let n = a.unicode_len();
    if n != b.unicode_len() {
        return false;
    }
    let mut i: usize = 0;
    while i < n
        invariant
            n == a@.len(),
            n == b@.len(),
            i <= n,
            forall|j: int| 0 <= j < i ==> a@[j] == b@[j],
        decreases n - i,
    {
        if a.get_char(i) != b.get_char(i) {
            return false;
        }
        i = i + 1;
    }
    assert(a@ =~= b@);
    true
}


/// The code of a character after ASCII lower-casing: `A`..`Z` map to
/// `a`..`z`, every other character is left as it is.
pub open spec fn ascii_fold(c: char) -> u32 {
    if 65 <= (c as u32) && (c as u32) <= 90 {
        ((c as u32) + 32) as u32
    } else {
        c as u32
    }
}

/// Two texts are equal ignoring ASCII case (as `str::eq_ignore_ascii_case`).
pub open spec fn eq_ignore_ascii_case(a: Seq<char>, b: Seq<char>) -> bool {
    &&& a.len() == b.len()
    &&& forall|i: int| 0 <= i < a.len() ==> ascii_fold(#[trigger] a[i]) == ascii_fold(b[i])
}

fn fold_char(c: char) -> (r: u32)
    ensures
        r == ascii_fold(c),
{
    let code = c as u32;
    if 65 <= code && code <= 90 {
        code + 32
    } else {
        code
    }
}

/// Compares two texts ignoring ASCII case.
pub fn text_eq_ignore_ascii_case(a: &str, b: &str) -> (r: bool)
    ensures
        r == eq_ignore_ascii_case(a@, b@),
{
    let n = a.unicode_len();
    if n != b.unicode_len() {
        return false;
    }
    let mut i: usize = 0;
    while i < n
        invariant
            n == a@.len(),
            n == b@.len(),
            i <= n,
            forall|j: int| 0 <= j < i ==> ascii_fold(#[trigger] a@[j]) == ascii_fold(b@[j]),
        decreases n - i,
    {
        if fold_char(a.get_char(i)) != fold_char(b.get_char(i)) {
            return false;
        }
        i = i + 1;
    }
    true
}

/// Equality ignoring ASCII case is symmetric and transitive.
pub proof fn lemma_eq_ignore_ascii_case_equivalence(a: Seq<char>, b: Seq<char>, c: Seq<char>)
    ensures
        eq_ignore_ascii_case(a, a),
        eq_ignore_ascii_case(a, b) ==> eq_ignore_ascii_case(b, a),
        eq_ignore_ascii_case(a, b) && eq_ignore_ascii_case(b, c) ==> eq_ignore_ascii_case(a, c),
{
    if eq_ignore_ascii_case(a, b) {
        assert forall|i: int| 0 <= i < b.len() implies ascii_fold(#[trigger] b[i]) == ascii_fold(a[i]) by {
            assert(ascii_fold(a[i]) == ascii_fold(b[i]));
        }
    }
    if eq_ignore_ascii_case(a, b) && eq_ignore_ascii_case(b, c) {
        assert forall|i: int| 0 <= i < a.len() implies ascii_fold(#[trigger] a[i]) == ascii_fold(c[i]) by {
            assert(ascii_fold(a[i]) == ascii_fold(b[i]));
            assert(ascii_fold(b[i]) == ascii_fold(c[i]));
        }
    }
}

/// A text with every leading `/` removed (as `str::trim_start_matches('/')`).
pub open spec fn strip_leading_slashes(s: Seq<char>) -> Seq<char>
    decreases s.len(),
{
    if s.len() > 0 && s[0] == '/' {
        strip_leading_slashes(s.drop_first())
    } else {
        s
    }
}

/// Removes every leading `/` of `s`.
pub fn trim_leading_slashes(s: &str) -> (r: &str)
    ensures
        r@ == strip_leading_slashes(s@),
{
    let n = s.unicode_len();
    let mut i: usize = 0;
    assert(s@.subrange(0, n as int) =~= s@);
    while i < n && s.get_char(i) == '/'
        invariant
            n == s@.len(),
            i <= n,
            strip_leading_slashes(s@) == strip_leading_slashes(s@.subrange(i as int, n as int)),
        decreases n - i,
    {
        assert(s@.subrange(i as int, n as int).drop_first() =~= s@.subrange(i + 1, n as int));
        i = i + 1;
    }
    s.substring_char(i, n)
}

} // verus!
