//! The default text preprocessor: trimming, NFKC folding and line-break
//! removal, as applied to raw captured text before display.

use crate::normalize::{is_unicode_space, nfkc_fold, nfkc_of};
use vstd::prelude::*;

verus! {

/// The text with its trailing whitespace removed.
pub open spec fn drop_trailing(s: Seq<char>) -> Seq<char>
    decreases s.len(),
{
    if s.len() > 0 && is_unicode_space(s.last()) {
        drop_trailing(s.drop_last())
    } else {
        s
    }
}

/// The text with its leading whitespace removed.
pub open spec fn drop_leading(s: Seq<char>) -> Seq<char>
    decreases s.len(),
{
    if s.len() > 0 && is_unicode_space(s.first()) {
        drop_leading(s.drop_first())
    } else {
        s
    }
}

/// The text with leading and trailing whitespace removed.
pub open spec fn trim_spec(s: Seq<char>) -> Seq<char> {
    drop_leading(drop_trailing(s))
}

/// The text with every line-break character removed.
pub open spec fn remove_breaks(s: Seq<char>) -> Seq<char>
    decreases s.len(),
{
    if s.len() == 0 {
        Seq::empty()
    } else {
        remove_breaks(s.drop_last()) + (if s.last() == '\n' || s.last() == '\r' {
            Seq::<char>::empty()
        } else {
            seq![s.last()]
        })
    }
}

/// What preprocessing yields: trim, fold to NFKC, drop line breaks, trim
/// again; blank input maps to the empty string.
pub open spec fn process_spec(s: Seq<char>) -> Seq<char> {
    if trim_spec(s).len() == 0 {
        Seq::empty()
    } else {
        trim_spec(remove_breaks(nfkc_of(trim_spec(s))))
    }
}

/// Whether the character has the Unicode `White_Space` property.
fn is_space(c: char) -> (b: bool)
    ensures
        b == is_unicode_space(c),
{
    let u = c as u32;
    (0x09 <= u && u <= 0x0D) || u == 0x20 || u == 0x85 || u == 0xA0 || u == 0x1680 || (0x2000
        <= u && u <= 0x200A) || u == 0x2028 || u == 0x2029 || u == 0x202F || u == 0x205F || u
        == 0x3000
}

/// Trim leading and trailing whitespace.
fn trim_str(s: &str) -> (r: String)
    ensures
        r@ == trim_spec(s@),
{
    let n = s.unicode_len();
    let mut b = n;
    proof {
        assert(s@.take(n as int) =~= s@);
    }
    while b > 0 && is_space(s.get_char(b - 1))
        invariant
            b <= n,
            n == s@.len(),
            drop_trailing(s@) == drop_trailing(s@.take(b as int)),
        decreases b,
    {
        proof {
            let t = s@.take(b as int);
            assert(t.last() == s@[b - 1]);
            assert(t.drop_last() =~= s@.take(b - 1));
        }
        b = b - 1;
    }
    proof {
        let t = s@.take(b as int);
        if b > 0 {
            assert(t.last() == s@[b - 1]);
        }
        assert(drop_trailing(t) == t);
    }
    let mut a: usize = 0;
    while a < b && is_space(s.get_char(a))
        invariant
            a <= b,
            b <= n,
            n == s@.len(),
            drop_trailing(s@) == s@.take(b as int),
            drop_leading(s@.take(b as int)) == drop_leading(s@.subrange(a as int, b as int)),
        decreases b - a,
    {
        proof {
            let t = s@.subrange(a as int, b as int);
            assert(t.first() == s@[a as int]);
            assert(t.drop_first() =~= s@.subrange(a + 1, b as int));
        }
        a = a + 1;
    }
    proof {
        let t = s@.subrange(a as int, b as int);
        if a < b {
            assert(t.first() == s@[a as int]);
        }
        assert(drop_leading(t) == t);
        assert(s@.take(b as int) =~= s@.subrange(0, b as int));
    }
    String::from_str(s.substring_char(a, b))
}

/// Remove every line-break character.
fn remove_breaks_str(s: &str) -> (r: String)
    ensures
        r@ == remove_breaks(s@),
{
    let n = s.unicode_len();
    let mut out = String::new();
    let mut i: usize = 0;
    while i < n
        invariant
            i <= n,
            n == s@.len(),
            out@ == remove_breaks(s@.take(i as int)),
        decreases n - i,
    {
        let c = s.get_char(i);
        proof {
            let t = s@.take(i + 1);
            assert(t.drop_last() =~= s@.take(i as int));
            assert(t.last() == s@[i as int]);
        }
        if !(c == '\n' || c == '\r') {
            let piece = s.substring_char(i, i + 1);
            assert(piece@ =~= seq![s@[i as int]]);
            out.append(piece);
        }
        i += 1;
    }
    proof {
        assert(s@.take(n as int) =~= s@);
    }
    out
}

/// The default preprocessor applied to raw captured text.
pub struct DefaultPreprocessor;

impl DefaultPreprocessor {
    /// Trim the text, fold it to NFKC, drop line breaks, and trim again.
    /// Blank input maps to the empty string.
    pub fn process(&self, text: &str) -> (r: String)
        ensures
            r@ == process_spec(text@),
    {
        let trimmed = trim_str(text);
        if trimmed.as_str().is_empty() {
            return String::new();
        }
        let folded = nfkc_fold(trimmed.as_str());
        let unbroken = remove_breaks_str(folded.as_str());
        trim_str(unbroken.as_str())
    }
}

} // verus!
