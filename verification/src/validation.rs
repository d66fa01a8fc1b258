//! Field validation: the error bag that forms produce, and the two field
//! rules the forms use (e-mail shape and a minimum length in characters).

use vstd::prelude::*;
use vstd::string::StrSliceExecFns;

verus! {

/// One validation failure: the field it belongs to and the message shown.
#[derive(Clone, Debug, PartialEq, Eq)]
pub struct FieldError {
    pub field: String,
    pub message: String,
}

/// The per-field error bag a failed validation produces, in the order the
/// failures were found.
#[derive(Clone, Debug, PartialEq, Eq)]
pub struct FormErrors {
    pub entries: Vec<FieldError>,
}

/// An error bag seen as the sequence of its `(field, message)` pairs.
pub open spec fn entry_view(e: FieldError) -> (Seq<char>, Seq<char>) {
    (e.field@, e.message@)
}

impl View for FormErrors {
    type V = Seq<(Seq<char>, Seq<char>)>;

    open spec fn view(&self) -> Seq<(Seq<char>, Seq<char>)> {
        self.entries@.map_values(|e: FieldError| entry_view(e))
    }
}

/// The errors one rule contributes: its pair when it fails, nothing otherwise.
pub open spec fn rule(failed: bool, field: Seq<char>, message: Seq<char>) -> Seq<(Seq<char>, Seq<char>)> {
    if failed {
        seq![(field, message)]
    } else {
        seq![]
    }
}

/// Two rules with distinct failures each contribute their pair exactly
/// when they fail.
pub proof fn lemma_two_rules(
    fa: bool, a: Seq<char>, ma: Seq<char>,
    fb: bool, b: Seq<char>, mb: Seq<char>,
)
    requires
        a != b,
    ensures
        (rule(fa, a, ma) + rule(fb, b, mb)).contains((a, ma)) <==> fa,
        (rule(fa, a, ma) + rule(fb, b, mb)).contains((b, mb)) <==> fb,
        (rule(fa, a, ma) + rule(fb, b, mb)).len() == 0 <==> (!fa && !fb),
{
    let s = rule(fa, a, ma) + rule(fb, b, mb);
    if fa {
        assert(s[0] == (a, ma));
    }
    if fb {
        assert(s[s.len() - 1] == (b, mb));
    }
    if s.contains((a, ma)) {
        let i = choose|i: int| 0 <= i < s.len() && s[i] == (a, ma);
        if !fa {
            assert(s =~= rule(fb, b, mb));
        }
    }
    if s.contains((b, mb)) {
        let i = choose|i: int| 0 <= i < s.len() && s[i] == (b, mb);
        if !fb {
            assert(s =~= rule(fa, a, ma));
        }
    }
}

/// Three rules on distinct fields each contribute their pair exactly when
/// they fail.
pub proof fn lemma_three_rules(
    fa: bool, a: Seq<char>, ma: Seq<char>,
    fb: bool, b: Seq<char>, mb: Seq<char>,
    fc: bool, c: Seq<char>, mc: Seq<char>,
)
    requires
        a != b,
        a != c,
        b != c,
    ensures
        (rule(fa, a, ma) + rule(fb, b, mb) + rule(fc, c, mc)).contains((a, ma)) <==> fa,
        (rule(fa, a, ma) + rule(fb, b, mb) + rule(fc, c, mc)).contains((b, mb)) <==> fb,
        (rule(fa, a, ma) + rule(fb, b, mb) + rule(fc, c, mc)).contains((c, mc)) <==> fc,
        (rule(fa, a, ma) + rule(fb, b, mb) + rule(fc, c, mc)).len() == 0 <==> (!fa && !fb && !fc),
{
    let s = rule(fa, a, ma) + rule(fb, b, mb) + rule(fc, c, mc);
    let pairs = seq![(a, ma, fa), (b, mb, fb), (c, mc, fc)];
    assert forall|k: int| 0 <= k < 3 implies (s.contains((#[trigger] pairs[k].0, pairs[k].1)) <==> pairs[k].2) by {
        let (x, m, f) = pairs[k];
        if f {
            let i: int = if k == 0 { 0 } else if k == 1 { (if fa { 1int } else { 0int }) } else {
                (if fa { 1int } else { 0int }) + (if fb { 1int } else { 0int })
            };
            assert(s[i] == (x, m));
        }
        if s.contains((x, m)) {
            let i = choose|i: int| 0 <= i < s.len() && s[i] == (x, m);
            assert(f);
        }
    }
    assert(pairs[0].0 == a && pairs[1].0 == b && pairs[2].0 == c);
}

/// What the staged pipeline rejects with: the field rules' errors when any fail,
/// otherwise the cross-field check's errors (the cross-field check only
/// runs on a form whose fields each passed).
pub open spec fn staged(field: Seq<(Seq<char>, Seq<char>)>, cross: Seq<(Seq<char>, Seq<char>)>) -> Seq<(Seq<char>, Seq<char>)> {
    if field.len() > 0 {
        field
    } else {
        cross
    }
}

impl FormErrors {
    /// An empty bag.
    pub fn new() -> (r: FormErrors)
        ensures
            r@ == Seq::<(Seq<char>, Seq<char>)>::empty(),
    {
        let r = FormErrors { entries: Vec::new() };
        assert(r@ =~= Seq::<(Seq<char>, Seq<char>)>::empty());
        r
    }

    /// Records a failure of `field` with `message`.
    pub fn add(&mut self, field: &str, message: &str)
        ensures
            final(self)@ == old(self)@.push((field@, message@)),
    {
        let e = FieldError { field: field.to_owned(), message: message.to_owned() };
        self.entries.push(e);
        assert(self@ =~= old(self)@.push((field@, message@)));
    }

    /// A bag holding the one failure `(field, message)`.
    pub fn single(field: &str, message: &str) -> (r: FormErrors)
        ensures
            r@ == seq![(field@, message@)],
    {
        let mut r = FormErrors::new();
        r.add(field, message);
        assert(r@ =~= seq![(field@, message@)]);
        r
    }

    /// Whether no failure was recorded.
    pub fn is_empty(&self) -> (r: bool)
        ensures
            r == (self@.len() == 0),
    {
        self.entries.len() == 0
    }

    /// The number of recorded failures.
    pub fn len(&self) -> (r: usize)
        ensures
            r == self@.len(),
    {
        self.entries.len()
    }
}

/// Whether `validator` accepts `s` as an e-mail address (its `email` rule).
pub uninterp spec fn valid_email(s: Seq<char>) -> bool;

/// Calls `validator::ValidateEmail::validate_email` on a string slice.
/// Trusted: the result is the named `valid_email` of the text, and, as
/// the crate's source returns `false` before anything else for an empty
/// text or one without `@`, such texts are rejected. The HTML5 pattern
/// and domain checks that decide the remaining cases are not stated.
#[verifier::external_body]
pub(crate) fn email_is_valid(s: &str) -> (r: bool)
    ensures
        r == valid_email(s@),
        s@.len() == 0 ==> !r,
        !s@.contains('@') ==> !r,
{
    validator::ValidateEmail::validate_email(&s)
}

/// Whether `s` holds at least `min` characters (the `length(min = ..)`
/// rule, which counts characters, not bytes).
pub fn has_min_chars(s: &str, min: usize) -> (r: bool)
    ensures
        r == (s@.len() >= min),
{
    s.unicode_len() >= min
}

} // verus!
