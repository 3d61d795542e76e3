//! Text normalization: Unicode NFKC folding followed by whitespace removal.
//!
//! Raw captured text may carry line breaks and full-width compatibility
//! variants.  Normalization folds the text to NFKC and removes every
//! whitespace character except the literal space, so that line breaks do not
//! fragment words while intentional spacing is preserved.

use unicode_normalization::UnicodeNormalization;
use vstd::prelude::*;

verus! {

/// The characters with the Unicode `White_Space` property, by code point.
pub open spec fn is_unicode_space(c: char) -> bool {
    let u = c as u32;
    (0x09 <= u && u <= 0x0D) || u == 0x20 || u == 0x85 || u == 0xA0 || u == 0x1680 || (0x2000
        <= u && u <= 0x200A) || u == 0x2028 || u == 0x2029 || u == 0x202F || u == 0x205F || u
        == 0x3000
}

/// A character survives whitespace stripping when it is not whitespace at
/// all, or is the literal space.
pub open spec fn keeps_char(c: char) -> bool {
    !is_unicode_space(c) || c == ' '
}

/// The text with every whitespace character other than the literal space
/// removed, order preserved.
pub open spec fn strip_spaces(s: Seq<char>) -> Seq<char>
    decreases s.len(),
{
    if s.len() == 0 {
        Seq::empty()
    } else {
        strip_spaces(s.drop_last()) + (if keeps_char(s.last()) {
            seq![s.last()]
        } else {
            Seq::<char>::empty()
        })
    }
}

/// The sequence of characters that NFKC normalization yields for `s`.
pub uninterp spec fn nfkc_of(s: Seq<char>) -> Seq<char>;

/// What `normalize` returns: NFKC normalization, then whitespace stripping.
pub open spec fn normalize_spec(s: Seq<char>) -> Seq<char> {
    strip_spaces(nfkc_of(s))
}

/// Relies on unicode_normalization's `nfkc` iterator: the result is the
/// input in Unicode Normalization Form KC (UAX #15), which depends on the
/// input characters alone.  UAX #15 states that every normalization form is
/// idempotent, and the normalization of the empty string is empty.
#[verifier::external_body]
pub(crate) fn nfkc_fold(text: &str) -> (r: String)
    ensures
        r@ == nfkc_of(text@),
        nfkc_of(r@) == r@,
        text@.len() == 0 ==> r@ =~= Seq::<char>::empty(),
{
    text.nfkc().collect()
}

/// Whether the character survives whitespace stripping.
fn is_kept(c: char) -> (b: bool)
    ensures
        b == keeps_char(c),
{
    let u = c as u32;
    let space = (0x09 <= u && u <= 0x0D) || u == 0x20 || u == 0x85 || u == 0xA0 || u == 0x1680
        || (0x2000 <= u && u <= 0x200A) || u == 0x2028 || u == 0x2029 || u == 0x202F || u
        == 0x205F || u == 0x3000;
    !space || c == ' '
}

proof fn lemma_strip_take_step(s: Seq<char>, i: int)
    requires
        0 <= i < s.len(),
    ensures
        strip_spaces(s.take(i + 1)) == strip_spaces(s.take(i)) + (if keeps_char(s[i]) {
            seq![s[i]]
        } else {
            Seq::<char>::empty()
        }),
{
    let t = s.take(i + 1);
    assert(t.drop_last() =~= s.take(i));
    assert(t.last() == s[i]);
}

/// NFKC-normalize the text, then remove every whitespace character except
/// the literal space.  Total over any input; the empty string maps to the
/// empty string.
pub fn normalize(text: &str) -> (r: String)
    ensures
        r@ == normalize_spec(text@),
        text@.len() == 0 ==> r@.len() == 0,
{
    let folded = nfkc_fold(text);
    let n = folded.as_str().unicode_len();
    let mut out = String::new();
    let mut i: usize = 0;
    while i < n
        invariant
            n == folded@.len(),
            i <= n,
            folded@ == nfkc_of(text@),
            out@ == strip_spaces(folded@.take(i as int)),
        decreases n - i,
    {
        let c = folded.as_str().get_char(i);
        proof {
            lemma_strip_take_step(folded@, i as int);
        }
        if is_kept(c) {
            let piece = folded.as_str().substring_char(i, i + 1);
            assert(piece@ =~= seq![folded@[i as int]]);
            out.append(piece);
        }
        i += 1;
    }
    proof {
        assert(folded@.take(n as int) =~= folded@);
    }
    out
}

/// Every character of a stripped sequence survives stripping.
proof fn lemma_strip_all_kept(s: Seq<char>)
    ensures
        forall|j: int| 0 <= j < strip_spaces(s).len() ==> keeps_char(strip_spaces(s)[j]),
    decreases s.len(),
{
    if s.len() > 0 {
        lemma_strip_all_kept(s.drop_last());
        let pre = strip_spaces(s.drop_last());
        assert forall|j: int| 0 <= j < strip_spaces(s).len() implies keeps_char(
            strip_spaces(s)[j],
        ) by {
            if j < pre.len() {
                assert(strip_spaces(s)[j] == pre[j]);
            } else {
                assert(strip_spaces(s)[j] == s.last());
            }
        }
    }
}

/// Stripping leaves a sequence of kept characters unchanged.
proof fn lemma_strip_of_kept(s: Seq<char>)
    requires
        forall|j: int| 0 <= j < s.len() ==> keeps_char(s[j]),
    ensures
        strip_spaces(s) == s,
    decreases s.len(),
{
    if s.len() == 0 {
        assert(strip_spaces(s) =~= s);
    } else {
        lemma_strip_of_kept(s.drop_last());
        assert(strip_spaces(s) =~= s);
    }
}

/// Whitespace stripping is idempotent.
pub proof fn lemma_strip_spaces_idempotent(s: Seq<char>)
    ensures
        strip_spaces(strip_spaces(s)) == strip_spaces(s),
{
    lemma_strip_all_kept(s);
    lemma_strip_of_kept(strip_spaces(s));
}

/// Normalization is idempotent: on any input whose normalized form is again
/// NFKC-normal (which whitespace removal preserves for ordinary text),
/// normalizing a second time changes nothing.
pub proof fn lemma_normalize_idempotent(s: Seq<char>)
    ensures
        nfkc_of(normalize_spec(s)) == normalize_spec(s) ==> normalize_spec(normalize_spec(s))
            == normalize_spec(s),
{
    if nfkc_of(normalize_spec(s)) == normalize_spec(s) {
        lemma_strip_spaces_idempotent(nfkc_of(s));
    }
}

} // verus!
