//! Flashcard templates: named deck and model, and front and back
//! templates whose placeholders are filled from a lookup result.

use crate::strutil::str_eq;
use vstd::prelude::*;

verus! {

/// The text with every occurrence of `pat` replaced by `rep`, scanning
/// left to right without overlap.
pub open spec fn replace_spec(s: Seq<char>, pat: Seq<char>, rep: Seq<char>) -> Seq<char>
    decreases s.len(),
{
    if s.len() == 0 {
        s
    } else if pat.len() > 0 && s.len() >= pat.len() && s.take(pat.len() as int) == pat {
        rep + replace_spec(s.skip(pat.len() as int), pat, rep)
    } else {
        seq![s.first()] + replace_spec(s.drop_first(), pat, rep)
    }
}

/// Replace every occurrence of `pat` in `s` by `rep`, left to right
/// without overlap.
pub fn replace_all(s: &str, pat: &str, rep: &str) -> (r: String)
    requires
        pat@.len() > 0,
    ensures
        r@ == replace_spec(s@, pat@, rep@),
{
    let n = s.unicode_len();
    let plen = pat.unicode_len();
    let mut out = String::new();
    let mut i: usize = 0;
    proof {
        assert(s@.skip(0) =~= s@);
        assert(out@ + replace_spec(s@, pat@, rep@) =~= replace_spec(s@, pat@, rep@));
    }
    while i < n
        invariant
            i <= n,
            n == s@.len(),
            plen == pat@.len(),
            plen > 0,
            out@ + replace_spec(s@.skip(i as int), pat@, rep@) =~= replace_spec(s@, pat@, rep@),
        decreases n - i,
    {
        let ghost rest = s@.skip(i as int);
        let matched = if plen <= n && i <= n - plen {
            str_eq(s.substring_char(i, i + plen), pat)
        } else {
            false
        };
        proof {
            if i + plen <= n {
                assert(rest.take(plen as int) =~= s@.subrange(i as int, i as int + plen as int));
            }
        }
        if matched {
            assert(rest.take(plen as int) == pat@);
            out.append(rep);
            proof {
                assert(rest.skip(plen as int) =~= s@.skip(i + plen));
            }
            i = i + plen;
        } else {
            proof {
                assert(rest.first() == s@[i as int]);
                if rest.len() >= plen {
                    assert(!(rest.take(plen as int) == pat@));
                }
                assert(rest.drop_first() =~= s@.skip(i + 1));
            }
            let piece = s.substring_char(i, i + 1);
            assert(piece@ =~= seq![s@[i as int]]);
            out.append(piece);
            i = i + 1;
        }
    }
    proof {
        assert(s@.skip(n as int).len() == 0);
        assert(replace_spec(s@.skip(n as int), pat@, rep@) =~= Seq::<char>::empty());
        assert(out@ =~= replace_spec(s@, pat@, rep@));
    }
    out
}

/// What filling a template yields: the term, reading and definition
/// placeholders replaced in turn.
pub open spec fn fill_spec(
    template: Seq<char>,
    term: Seq<char>,
    reading: Seq<char>,
    definition: Seq<char>,
) -> Seq<char> {
    replace_spec(
        replace_spec(replace_spec(template, "{term}"@, term), "{reading}"@, reading),
        "{definition}"@,
        definition,
    )
}

/// A flashcard template: the target deck and note model, and the front
/// and back templates with `{term}`, `{reading}` and `{definition}`
/// placeholders.
pub struct CardTemplate {
    pub deck: String,
    pub model: String,
    pub front_template: String,
    pub back_template: String,
}

/// One note field: a name and its value.
pub struct NoteField {
    pub name: String,
    pub value: String,
}

impl CardTemplate {
    /// The default Japanese vocabulary template.
    pub fn default_japanese() -> (t: CardTemplate)
        ensures
            t.deck@ == "Japanese"@,
            t.model@ == "Basic"@,
            t.front_template@ == "{term}\n{reading}"@,
            t.back_template@ == "{definition}"@,
    {
        CardTemplate {
            deck: String::from_str("Japanese"),
            model: String::from_str("Basic"),
            front_template: String::from_str("{term}\n{reading}"),
            back_template: String::from_str("{definition}"),
        }
    }

    /// A custom template.
    pub fn new(deck: String, model: String, front: String, back: String) -> (t: CardTemplate)
        ensures
            t.deck@ == deck@,
            t.model@ == model@,
            t.front_template@ == front@,
            t.back_template@ == back@,
    {
        CardTemplate { deck, model, front_template: front, back_template: back }
    }

    /// The front of the card, placeholders filled.
    pub fn format_front(&self, term: &str, reading: &str, definition: &str) -> (r: String)
        ensures
            r@ == fill_spec(self.front_template@, term@, reading@, definition@),
    {
        proof {
            reveal_strlit("{term}");
            reveal_strlit("{reading}");
            reveal_strlit("{definition}");
        }
        let step1 = replace_all(self.front_template.as_str(), "{term}", term);
        let step2 = replace_all(step1.as_str(), "{reading}", reading);
        replace_all(step2.as_str(), "{definition}", definition)
    }

    /// The back of the card, placeholders filled.
    pub fn format_back(&self, term: &str, reading: &str, definition: &str) -> (r: String)
        ensures
            r@ == fill_spec(self.back_template@, term@, reading@, definition@),
    {
        proof {
            reveal_strlit("{term}");
            reveal_strlit("{reading}");
            reveal_strlit("{definition}");
        }
        let step1 = replace_all(self.back_template.as_str(), "{term}", term);
        let step2 = replace_all(step1.as_str(), "{reading}", reading);
        replace_all(step2.as_str(), "{definition}", definition)
    }
}

} // verus!
