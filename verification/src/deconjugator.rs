//! The rule-based deconjugator: maps a conjugated surface string to
//! candidate dictionary base forms, each with a conjugation-type label and
//! a confidence score.
//!
//! Confidence is given in hundredths: 100 for an exact irregular-verb
//! match, 80 for the single unambiguous ichidan candidate, 70 or 60 for
//! godan candidates that share their surface form with other base verbs.
//! The deconjugator never consults the dictionary; the caller filters
//! candidates by whether they resolve to an entry.

use crate::strutil::str_eq;
use vstd::prelude::*;

verus! {

/// One candidate base form: the dictionary form, a human-readable
/// conjugation-type label, and a confidence score in hundredths.
pub struct DeconjugationResult {
    pub base_form: String,
    pub conjugation_type: String,
    pub confidence: u8,
}

/// The mathematical value of a candidate.
#[verifier::ext_equal]
pub ghost struct DeconjModel {
    pub base_form: Seq<char>,
    pub conjugation_type: Seq<char>,
    pub confidence: u8,
}

impl View for DeconjugationResult {
    type V = DeconjModel;

    open spec fn view(&self) -> DeconjModel {
        DeconjModel {
            base_form: self.base_form@,
            conjugation_type: self.conjugation_type@,
            confidence: self.confidence,
        }
    }
}

impl DeepView for DeconjugationResult {
    type V = DeconjModel;

    open spec fn deep_view(&self) -> DeconjModel {
        self.view()
    }
}

/// Shorthand for one candidate.
pub open spec fn cand(base: Seq<char>, kind: Seq<char>, confidence: u8) -> DeconjModel {
    DeconjModel { base_form: base, conjugation_type: kind, confidence }
}

/// Whether `s` ends with the one-character suffix `c`.
pub open spec fn ends_with_1(s: Seq<char>, c: Seq<char>) -> bool {
    s.len() >= 1 && s.subrange(s.len() - 1, s.len() as int) == c
}

/// The te-form candidates.  For a word in te-form the stem's final mora
/// picks the phonetically compatible godan base verbs; the ichidan
/// candidate is always emitted; the irregular verbs match exactly.
pub open spec fn te_cands(w: Seq<char>) -> Seq<DeconjModel> {
    let regular = if ends_with_1(w, "て"@) {
        let stem = w.drop_last();
        let cut = stem.drop_last();
        (if ends_with_1(stem, "い"@) {
            seq![cand(cut + "う"@, "godan verb, te-form"@, 70)]
        } else {
            Seq::<DeconjModel>::empty()
        }) + (if ends_with_1(stem, "っ"@) {
            seq![
                cand(cut + "う"@, "godan verb, te-form"@, 60),
                cand(cut + "つ"@, "godan verb, te-form"@, 60),
                cand(cut + "る"@, "godan verb, te-form"@, 60),
            ]
        } else {
            Seq::<DeconjModel>::empty()
        }) + (if ends_with_1(stem, "ん"@) {
            seq![
                cand(cut + "ぬ"@, "godan verb, te-form"@, 60),
                cand(cut + "ぶ"@, "godan verb, te-form"@, 60),
                cand(cut + "む"@, "godan verb, te-form"@, 60),
            ]
        } else {
            Seq::<DeconjModel>::empty()
        }) + (if ends_with_1(stem, "い"@) {
            seq![cand(cut + "く"@, "godan verb, te-form"@, 70)]
        } else {
            Seq::<DeconjModel>::empty()
        }) + (if ends_with_1(stem, "し"@) {
            seq![cand(cut + "す"@, "godan verb, te-form"@, 70)]
        } else {
            Seq::<DeconjModel>::empty()
        }) + seq![cand(stem + "る"@, "ichidan verb, te-form"@, 80)]
    } else {
        Seq::<DeconjModel>::empty()
    };
    regular + (if w == "して"@ {
        seq![cand("する"@, "irregular verb する, te-form"@, 100)]
    } else {
        Seq::<DeconjModel>::empty()
    }) + (if w == "来て"@ || w == "きて"@ {
        seq![cand("来る"@, "irregular verb 来る, te-form"@, 100)]
    } else {
        Seq::<DeconjModel>::empty()
    })
}

/// The ta-form (past) candidates: the word is rewritten to its te-form
/// equivalent and the te-form rules decide.
pub open spec fn ta_cands(w: Seq<char>) -> Seq<DeconjModel> {
    if ends_with_1(w, "た"@) {
        te_cands(w.drop_last() + "て"@)
    } else if ends_with_1(w, "だ"@) {
        te_cands(w.drop_last() + "で"@)
    } else {
        Seq::<DeconjModel>::empty()
    }
}

/// One godan row: if the stem ends with the given conjugated mora, the
/// candidate restores the dictionary-form mora of the same row.
pub open spec fn row_cands(
    stem: Seq<char>,
    i_kana: Seq<char>,
    u_kana: Seq<char>,
    label: Seq<char>,
    conf: u8,
) -> Seq<DeconjModel> {
    if ends_with_1(stem, i_kana) {
        seq![cand(stem.drop_last() + u_kana, label, conf)]
    } else {
        Seq::<DeconjModel>::empty()
    }
}

/// The masu-form (polite) candidates: the ichidan candidate, then the nine
/// godan rows mapped from the i-column back to the u-column, then the
/// irregular verbs.
pub open spec fn masu_cands(w: Seq<char>) -> Seq<DeconjModel> {
    let regular = if w.len() >= 2 && w.subrange(w.len() - 2, w.len() as int) == "ます"@ {
        let stem = w.take(w.len() - 2);
        let l = "godan verb, masu-form"@;
        seq![cand(stem + "る"@, "ichidan verb, masu-form"@, 80)] + row_cands(stem, "き"@, "く"@, l, 80)
            + row_cands(stem, "ぎ"@, "ぐ"@, l, 80) + row_cands(stem, "し"@, "す"@, l, 80) + row_cands(
            stem,
            "ち"@,
            "つ"@,
            l,
            80,
        ) + row_cands(stem, "に"@, "ぬ"@, l, 80) + row_cands(stem, "び"@, "ぶ"@, l, 80) + row_cands(
            stem,
            "み"@,
            "む"@,
            l,
            80,
        ) + row_cands(stem, "り"@, "る"@, l, 80)
    } else {
        Seq::<DeconjModel>::empty()
    };
    regular + (if w == "します"@ {
        seq![cand("する"@, "irregular verb する, masu-form"@, 80)]
    } else {
        Seq::<DeconjModel>::empty()
    }) + (if w == "来ます"@ || w == "きます"@ {
        seq![cand("来る"@, "irregular verb 来る, masu-form"@, 80)]
    } else {
        Seq::<DeconjModel>::empty()
    })
}

/// The candidates with ", continuous" appended to every label.
pub open spec fn with_continuous(cs: Seq<DeconjModel>) -> Seq<DeconjModel> {
    cs.map_values(
        |c: DeconjModel|
            DeconjModel {
                base_form: c.base_form,
                conjugation_type: c.conjugation_type + ", continuous"@,
                confidence: c.confidence,
            },
    )
}

/// The continuous-form candidates: strip the continuous suffix back to a
/// te-form string, let the te-form rules decide, and tag every candidate
/// as continuous.
pub open spec fn teiru_cands(w: Seq<char>) -> Seq<DeconjModel> {
    if w.len() >= 3 && w.subrange(w.len() - 3, w.len() as int) == "ている"@ {
        with_continuous(te_cands(w.take(w.len() - 3) + "て"@))
    } else {
        Seq::<DeconjModel>::empty()
    }
}

/// The negative-form candidates: the nine godan rows mapped from the
/// a-column back to the u-column, the ichidan candidate, then the
/// irregular verbs.
pub open spec fn negative_cands(w: Seq<char>) -> Seq<DeconjModel> {
    let regular = if w.len() >= 2 && w.subrange(w.len() - 2, w.len() as int) == "ない"@ {
        let stem = w.take(w.len() - 2);
        let l = "godan verb, negative"@;
        row_cands(stem, "か"@, "く"@, l, 80) + row_cands(stem, "が"@, "ぐ"@, l, 80) + row_cands(
            stem,
            "さ"@,
            "す"@,
            l,
            80,
        ) + row_cands(stem, "た"@, "つ"@, l, 80) + row_cands(stem, "な"@, "ぬ"@, l, 80) + row_cands(
            stem,
            "ば"@,
            "ぶ"@,
            l,
            80,
        ) + row_cands(stem, "ま"@, "む"@, l, 80) + row_cands(stem, "ら"@, "る"@, l, 80) + row_cands(
            stem,
            "わ"@,
            "う"@,
            l,
            80,
        ) + seq![cand(stem + "る"@, "ichidan verb, negative"@, 80)]
    } else {
        Seq::<DeconjModel>::empty()
    };
    regular + (if w == "しない"@ {
        seq![cand("する"@, "irregular verb する, negative"@, 80)]
    } else {
        Seq::<DeconjModel>::empty()
    }) + (if w == "来ない"@ || w == "こない"@ {
        seq![cand("来る"@, "irregular verb 来る, negative"@, 80)]
    } else {
        Seq::<DeconjModel>::empty()
    })
}

/// The i-adjective candidates: negative, past and te-form suffixes each
/// map back to the plain adjective.
pub open spec fn i_adj_cands(w: Seq<char>) -> Seq<DeconjModel> {
    (if w.len() >= 3 && w.subrange(w.len() - 3, w.len() as int) == "くない"@ {
        seq![cand(w.take(w.len() - 3) + "い"@, "i-adjective, negative"@, 80)]
    } else {
        Seq::<DeconjModel>::empty()
    }) + (if w.len() >= 3 && w.subrange(w.len() - 3, w.len() as int) == "かった"@ {
        seq![cand(w.take(w.len() - 3) + "い"@, "i-adjective, past"@, 80)]
    } else {
        Seq::<DeconjModel>::empty()
    }) + (if w.len() >= 2 && w.subrange(w.len() - 2, w.len() as int) == "くて"@ {
        seq![cand(w.take(w.len() - 2) + "い"@, "i-adjective, te-form"@, 80)]
    } else {
        Seq::<DeconjModel>::empty()
    })
}

/// All candidates, the six rule families concatenated: te-form, ta-form,
/// masu-form, continuous, negative, i-adjective.
pub open spec fn deconj_cands(w: Seq<char>) -> Seq<DeconjModel> {
    te_cands(w) + ta_cands(w) + masu_cands(w) + teiru_cands(w) + negative_cands(w) + i_adj_cands(
        w,
    )
}

/// The prefix of `word` up to character `upto`, with `suffix` appended.
fn base_plus(word: &str, upto: usize, suffix: &str) -> (r: String)
    requires
        upto <= word@.len(),
    ensures
        r@ == word@.subrange(0, upto as int) + suffix@,
{
    String::from_str(word.substring_char(0, upto)).concat(suffix)
}

/// Whether character `at` of `word` spells exactly `suffix` (one character).
fn char_is(word: &str, at: usize, suffix: &str) -> (r: bool)
    requires
        at < word@.len(),
        word@.len() <= usize::MAX,
    ensures
        r == (word@.subrange(at as int, at + 1) == suffix@),
{
    str_eq(word.substring_char(at, at + 1), suffix)
}

/// Whether the last `k` characters of `word` spell `suffix`; `n` is the
/// character length of `word`.
fn ends_with_str(word: &str, n: usize, k: usize, suffix: &str) -> (r: bool)
    requires
        n == word@.len(),
    ensures
        r == (word@.len() >= k && word@.subrange(word@.len() - k, word@.len() as int)
            == suffix@),
{
    if n >= k {
        str_eq(word.substring_char(n - k, n), suffix)
    } else {
        false
    }
}

/// Append the candidate of one godan row, if the stem (the first `m`
/// characters of `word`) ends with the row's conjugated mora.
fn push_godan_row(
    out: &mut Vec<DeconjugationResult>,
    word: &str,
    m: usize,
    i_kana: &str,
    u_kana: &str,
    label: &str,
    conf: u8,
)
    requires
        m <= word@.len(),
        word@.len() <= usize::MAX,
    ensures
        final(out).deep_view() == old(out).deep_view() + row_cands(
            word@.take(m as int),
            i_kana@,
            u_kana@,
            label@,
            conf,
        ),
{
    let ghost stem = word@.take(m as int);
    if m >= 1 && char_is(word, m - 1, i_kana) {
        proof {
            assert(stem.subrange(m - 1, m as int) =~= word@.subrange(m - 1, m as int));
            assert(stem.drop_last() =~= word@.subrange(0, m - 1));
        }
        assert(ends_with_1(stem, i_kana@));
        out.push(
            DeconjugationResult {
                base_form: base_plus(word, m - 1, u_kana),
                conjugation_type: String::from_str(label),
                confidence: conf,
            },
        );
    } else {
        proof {
            if m >= 1 {
                assert(stem.subrange(m - 1, m as int) =~= word@.subrange(m - 1, m as int));
            }
        }
        assert(!ends_with_1(stem, i_kana@));
    }
    proof {
        assert(out.deep_view() =~= old(out).deep_view() + row_cands(
            stem,
            i_kana@,
            u_kana@,
            label@,
            conf,
        ));
    }
}

pub struct JapaneseDeconjugator;

impl JapaneseDeconjugator {
    /// A deconjugator; it carries no state.
    pub fn new() -> (d: JapaneseDeconjugator) {
        JapaneseDeconjugator
    }

    /// The te-form candidates of the word.
    #[verifier::rlimit(60)]
    pub fn deconjugate_te_form(&self, word: &str) -> (r: Vec<DeconjugationResult>)
        ensures
            r.deep_view() == te_cands(word@),
    {
        let ghost w = word@;
        let ghost stem = w.drop_last();
        let ghost cut = stem.drop_last();
        let ghost p1 = if ends_with_1(stem, "い"@) {
            seq![cand(cut + "う"@, "godan verb, te-form"@, 70)]
        } else {
            Seq::<DeconjModel>::empty()
        };
        let ghost p2 = if ends_with_1(stem, "っ"@) {
            seq![
                cand(cut + "う"@, "godan verb, te-form"@, 60),
                cand(cut + "つ"@, "godan verb, te-form"@, 60),
                cand(cut + "る"@, "godan verb, te-form"@, 60),
            ]
        } else {
            Seq::<DeconjModel>::empty()
        };
        let ghost p3 = if ends_with_1(stem, "ん"@) {
            seq![
                cand(cut + "ぬ"@, "godan verb, te-form"@, 60),
                cand(cut + "ぶ"@, "godan verb, te-form"@, 60),
                cand(cut + "む"@, "godan verb, te-form"@, 60),
            ]
        } else {
            Seq::<DeconjModel>::empty()
        };
        let ghost p4 = if ends_with_1(stem, "い"@) {
            seq![cand(cut + "く"@, "godan verb, te-form"@, 70)]
        } else {
            Seq::<DeconjModel>::empty()
        };
        let ghost p5 = if ends_with_1(stem, "し"@) {
            seq![cand(cut + "す"@, "godan verb, te-form"@, 70)]
        } else {
            Seq::<DeconjModel>::empty()
        };
        let ghost p6 = seq![cand(stem + "る"@, "ichidan verb, te-form"@, 80)];
        let ghost regular = if ends_with_1(w, "て"@) {
            p1 + p2 + p3 + p4 + p5 + p6
        } else {
            Seq::<DeconjModel>::empty()
        };
        let mut out: Vec<DeconjugationResult> = Vec::new();
        let n = word.unicode_len();
        if n >= 1 && char_is(word, n - 1, "て") {
            assert(ends_with_1(w, "て"@));
            let m = n - 1;
            proof {
                if m >= 1 {
                    assert(stem.subrange(m - 1, m as int) =~= w.subrange(m - 1, m as int));
                    assert(cut =~= w.subrange(0, m - 1));
                }
                assert(stem =~= w.subrange(0, m as int));
            }
            let stem_i = m >= 1 && char_is(word, m - 1, "い");
            if stem_i {
                assert(ends_with_1(stem, "い"@));
                out.push(
                    DeconjugationResult {
                        base_form: base_plus(word, m - 1, "う"),
                        conjugation_type: String::from_str("godan verb, te-form"),
                        confidence: 70,
                    },
                );
            } else {
                assert(!ends_with_1(stem, "い"@));
            }
            assert(out.deep_view() =~= p1);
            if m >= 1 && char_is(word, m - 1, "っ") {
                assert(ends_with_1(stem, "っ"@));
                out.push(
                    DeconjugationResult {
                        base_form: base_plus(word, m - 1, "う"),
                        conjugation_type: String::from_str("godan verb, te-form"),
                        confidence: 60,
                    },
                );
                out.push(
                    DeconjugationResult {
                        base_form: base_plus(word, m - 1, "つ"),
                        conjugation_type: String::from_str("godan verb, te-form"),
                        confidence: 60,
                    },
                );
                out.push(
                    DeconjugationResult {
                        base_form: base_plus(word, m - 1, "る"),
                        conjugation_type: String::from_str("godan verb, te-form"),
                        confidence: 60,
                    },
                );
            } else {
                assert(!ends_with_1(stem, "っ"@));
            }
            assert(out.deep_view() =~= p1 + p2);
            if m >= 1 && char_is(word, m - 1, "ん") {
                assert(ends_with_1(stem, "ん"@));
                out.push(
                    DeconjugationResult {
                        base_form: base_plus(word, m - 1, "ぬ"),
                        conjugation_type: String::from_str("godan verb, te-form"),
                        confidence: 60,
                    },
                );
                out.push(
                    DeconjugationResult {
                        base_form: base_plus(word, m - 1, "ぶ"),
                        conjugation_type: String::from_str("godan verb, te-form"),
                        confidence: 60,
                    },
                );
                out.push(
                    DeconjugationResult {
                        base_form: base_plus(word, m - 1, "む"),
                        conjugation_type: String::from_str("godan verb, te-form"),
                        confidence: 60,
                    },
                );
            } else {
                assert(!ends_with_1(stem, "ん"@));
            }
            assert(out.deep_view() =~= p1 + p2 + p3);
            if stem_i {
                out.push(
                    DeconjugationResult {
                        base_form: base_plus(word, m - 1, "く"),
                        conjugation_type: String::from_str("godan verb, te-form"),
                        confidence: 70,
                    },
                );
            }
            assert(out.deep_view() =~= p1 + p2 + p3 + p4);
            if m >= 1 && char_is(word, m - 1, "し") {
                assert(ends_with_1(stem, "し"@));
                out.push(
                    DeconjugationResult {
                        base_form: base_plus(word, m - 1, "す"),
                        conjugation_type: String::from_str("godan verb, te-form"),
                        confidence: 70,
                    },
                );
            } else {
                assert(!ends_with_1(stem, "し"@));
            }
            assert(out.deep_view() =~= p1 + p2 + p3 + p4 + p5);
            out.push(
                DeconjugationResult {
                    base_form: base_plus(word, m, "る"),
                    conjugation_type: String::from_str("ichidan verb, te-form"),
                    confidence: 80,
                },
            );
            assert(out.deep_view() =~= regular);
        } else {
            assert(!ends_with_1(w, "て"@));
            assert(out.deep_view() =~= regular);
        }
        if str_eq(word, "して") {
            out.push(
                DeconjugationResult {
                    base_form: String::from_str("する"),
                    conjugation_type: String::from_str("irregular verb する, te-form"),
                    confidence: 100,
                },
            );
        }
        if str_eq(word, "来て") || str_eq(word, "きて") {
            out.push(
                DeconjugationResult {
                    base_form: String::from_str("来る"),
                    conjugation_type: String::from_str("irregular verb 来る, te-form"),
                    confidence: 100,
                },
            );
        }
        proof {
            assert(out.deep_view() =~= te_cands(w));
        }
        out
    }

    /// The ta-form (past) candidates of the word.
    pub fn deconjugate_ta_form(&self, word: &str) -> (r: Vec<DeconjugationResult>)
        ensures
            r.deep_view() == ta_cands(word@),
    {
        let ghost w = word@;
        let n = word.unicode_len();
        if n >= 1 && char_is(word, n - 1, "た") {
            assert(ends_with_1(w, "た"@));
            let te = base_plus(word, n - 1, "て");
            proof {
                assert(te@ =~= w.drop_last() + "て"@);
            }
            return self.deconjugate_te_form(te.as_str());
        }
        if n >= 1 && char_is(word, n - 1, "だ") {
            assert(ends_with_1(w, "だ"@));
            assert(!ends_with_1(w, "た"@));
            let te = base_plus(word, n - 1, "で");
            proof {
                assert(te@ =~= w.drop_last() + "で"@);
            }
            return self.deconjugate_te_form(te.as_str());
        }
        proof {
            if n >= 1 {
                assert(!ends_with_1(w, "た"@));
                assert(!ends_with_1(w, "だ"@));
            }
        }
        Vec::new()
    }

    /// The masu-form (polite) candidates of the word.
    #[verifier::rlimit(60)]
    pub fn deconjugate_masu_form(&self, word: &str) -> (r: Vec<DeconjugationResult>)
        ensures
            r.deep_view() == masu_cands(word@),
    {
        let ghost w = word@;
        let mut out: Vec<DeconjugationResult> = Vec::new();
        let n = word.unicode_len();
        if ends_with_str(word, n, 2, "ます") {
            let m = n - 2;
            let ghost stem = w.take(m as int);
            let ghost l = "godan verb, masu-form"@;
            out.push(
                DeconjugationResult {
                    base_form: base_plus(word, m, "る"),
                    conjugation_type: String::from_str("ichidan verb, masu-form"),
                    confidence: 80,
                },
            );
            assert(out.deep_view() =~= seq![cand(stem + "る"@, "ichidan verb, masu-form"@, 80)]);
            push_godan_row(&mut out, word, m, "き", "く", "godan verb, masu-form", 80);
            push_godan_row(&mut out, word, m, "ぎ", "ぐ", "godan verb, masu-form", 80);
            push_godan_row(&mut out, word, m, "し", "す", "godan verb, masu-form", 80);
            push_godan_row(&mut out, word, m, "ち", "つ", "godan verb, masu-form", 80);
            push_godan_row(&mut out, word, m, "に", "ぬ", "godan verb, masu-form", 80);
            push_godan_row(&mut out, word, m, "び", "ぶ", "godan verb, masu-form", 80);
            push_godan_row(&mut out, word, m, "み", "む", "godan verb, masu-form", 80);
            push_godan_row(&mut out, word, m, "り", "る", "godan verb, masu-form", 80);
            proof {
                assert(out.deep_view() =~= seq![
                    cand(stem + "る"@, "ichidan verb, masu-form"@, 80),
                ] + row_cands(stem, "き"@, "く"@, l, 80) + row_cands(stem, "ぎ"@, "ぐ"@, l, 80)
                    + row_cands(stem, "し"@, "す"@, l, 80) + row_cands(stem, "ち"@, "つ"@, l, 80)
                    + row_cands(stem, "に"@, "ぬ"@, l, 80) + row_cands(stem, "び"@, "ぶ"@, l, 80)
                    + row_cands(stem, "み"@, "む"@, l, 80) + row_cands(stem, "り"@, "る"@, l, 80));
            }
        }
        if str_eq(word, "します") {
            out.push(
                DeconjugationResult {
                    base_form: String::from_str("する"),
                    conjugation_type: String::from_str("irregular verb する, masu-form"),
                    confidence: 80,
                },
            );
        }
        if str_eq(word, "来ます") || str_eq(word, "きます") {
            out.push(
                DeconjugationResult {
                    base_form: String::from_str("来る"),
                    conjugation_type: String::from_str("irregular verb 来る, masu-form"),
                    confidence: 80,
                },
            );
        }
        proof {
            assert(out.deep_view() =~= masu_cands(w));
        }
        out
    }

    /// The continuous-form candidates of the word, each labelled as
    /// continuous on top of its te-form label.
    pub fn deconjugate_teiru_form(&self, word: &str) -> (r: Vec<DeconjugationResult>)
        ensures
            r.deep_view() == teiru_cands(word@),
    {
        let ghost w = word@;
        let n = word.unicode_len();
        if ends_with_str(word, n, 3, "ている") {
            let te = base_plus(word, n - 3, "て");
            let base = self.deconjugate_te_form(te.as_str());
            let ghost mapped = with_continuous(te_cands(te@));
            let mut out: Vec<DeconjugationResult> = Vec::new();
            let mut i: usize = 0;
            while i < base.len()
                invariant
                    i <= base.len(),
                    base.deep_view() == te_cands(te@),
                    mapped == with_continuous(te_cands(te@)),
                    mapped.len() == base@.len(),
                    out.deep_view() =~= mapped.take(i as int),
                decreases base.len() - i,
            {
                let c = &base[i];
                assert(c.deep_view() == te_cands(te@)[i as int]);
                out.push(
                    DeconjugationResult {
                        base_form: c.base_form.clone(),
                        conjugation_type: c.conjugation_type.clone().concat(", continuous"),
                        confidence: c.confidence,
                    },
                );
                proof {
                    assert(mapped[i as int] == DeconjModel {
                        base_form: c@.base_form,
                        conjugation_type: c@.conjugation_type + ", continuous"@,
                        confidence: c@.confidence,
                    });
                    assert(mapped.take(i + 1) =~= mapped.take(i as int).push(mapped[i as int]));
                }
                i += 1;
            }
            proof {
                assert(mapped.take(mapped.len() as int) =~= mapped);
                assert(te@ =~= w.take(w.len() - 3) + "て"@);
            }
            out
        } else {
            proof {
                assert(teiru_cands(w) =~= Seq::<DeconjModel>::empty());
            }
            Vec::new()
        }
    }

    /// The negative-form candidates of the word.
    #[verifier::rlimit(60)]
    pub fn deconjugate_negative(&self, word: &str) -> (r: Vec<DeconjugationResult>)
        ensures
            r.deep_view() == negative_cands(word@),
    {
        let ghost w = word@;
        let mut out: Vec<DeconjugationResult> = Vec::new();
        let n = word.unicode_len();
        if ends_with_str(word, n, 2, "ない") {
            let m = n - 2;
            let ghost stem = w.take(m as int);
            let ghost l = "godan verb, negative"@;
            push_godan_row(&mut out, word, m, "か", "く", "godan verb, negative", 80);
            push_godan_row(&mut out, word, m, "が", "ぐ", "godan verb, negative", 80);
            push_godan_row(&mut out, word, m, "さ", "す", "godan verb, negative", 80);
            push_godan_row(&mut out, word, m, "た", "つ", "godan verb, negative", 80);
            push_godan_row(&mut out, word, m, "な", "ぬ", "godan verb, negative", 80);
            push_godan_row(&mut out, word, m, "ば", "ぶ", "godan verb, negative", 80);
            push_godan_row(&mut out, word, m, "ま", "む", "godan verb, negative", 80);
            push_godan_row(&mut out, word, m, "ら", "る", "godan verb, negative", 80);
            push_godan_row(&mut out, word, m, "わ", "う", "godan verb, negative", 80);
            out.push(
                DeconjugationResult {
                    base_form: base_plus(word, m, "る"),
                    conjugation_type: String::from_str("ichidan verb, negative"),
                    confidence: 80,
                },
            );
            proof {
                assert(out.deep_view() =~= row_cands(stem, "か"@, "く"@, l, 80) + row_cands(
                    stem,
                    "が"@,
                    "ぐ"@,
                    l,
                    80,
                ) + row_cands(stem, "さ"@, "す"@, l, 80) + row_cands(stem, "た"@, "つ"@, l, 80)
                    + row_cands(stem, "な"@, "ぬ"@, l, 80) + row_cands(stem, "ば"@, "ぶ"@, l, 80)
                    + row_cands(stem, "ま"@, "む"@, l, 80) + row_cands(stem, "ら"@, "る"@, l, 80)
                    + row_cands(stem, "わ"@, "う"@, l, 80) + seq![
                    cand(stem + "る"@, "ichidan verb, negative"@, 80),
                ]);
            }
        }
        if str_eq(word, "しない") {
            out.push(
                DeconjugationResult {
                    base_form: String::from_str("する"),
                    conjugation_type: String::from_str("irregular verb する, negative"),
                    confidence: 80,
                },
            );
        }
        if str_eq(word, "来ない") || str_eq(word, "こない") {
            out.push(
                DeconjugationResult {
                    base_form: String::from_str("来る"),
                    conjugation_type: String::from_str("irregular verb 来る, negative"),
                    confidence: 80,
                },
            );
        }
        proof {
            assert(out.deep_view() =~= negative_cands(w));
        }
        out
    }

    /// The i-adjective candidates of the word.
    pub fn deconjugate_i_adjective(&self, word: &str) -> (r: Vec<DeconjugationResult>)
        ensures
            r.deep_view() == i_adj_cands(word@),
    {
        let ghost w = word@;
        let mut out: Vec<DeconjugationResult> = Vec::new();
        let n = word.unicode_len();
        if ends_with_str(word, n, 3, "くない") {
            out.push(
                DeconjugationResult {
                    base_form: base_plus(word, n - 3, "い"),
                    conjugation_type: String::from_str("i-adjective, negative"),
                    confidence: 80,
                },
            );
        }
        if ends_with_str(word, n, 3, "かった") {
            out.push(
                DeconjugationResult {
                    base_form: base_plus(word, n - 3, "い"),
                    conjugation_type: String::from_str("i-adjective, past"),
                    confidence: 80,
                },
            );
        }
        if ends_with_str(word, n, 2, "くて") {
            out.push(
                DeconjugationResult {
                    base_form: base_plus(word, n - 2, "い"),
                    conjugation_type: String::from_str("i-adjective, te-form"),
                    confidence: 80,
                },
            );
        }
        proof {
            assert(out.deep_view() =~= i_adj_cands(w));
        }
        out
    }

    /// Every candidate base form of the word, the six rule families applied
    /// independently and their results concatenated.  Pure and total: an
    /// unconjugated word simply yields few or no candidates.
    pub fn deconjugate(&self, word: &str) -> (r: Vec<DeconjugationResult>)
        ensures
            r.deep_view() == deconj_cands(word@),
    {
        let mut out = self.deconjugate_te_form(word);
        let mut ta = self.deconjugate_ta_form(word);
        let mut masu = self.deconjugate_masu_form(word);
        let mut teiru = self.deconjugate_teiru_form(word);
        let mut negative = self.deconjugate_negative(word);
        let mut i_adj = self.deconjugate_i_adjective(word);
        out.append(&mut ta);
        out.append(&mut masu);
        out.append(&mut teiru);
        out.append(&mut negative);
        out.append(&mut i_adj);
        proof {
            assert(out.deep_view() =~= deconj_cands(word@));
        }
        out
    }
}

} // verus!
