//! The lookup orchestrator: normalization, span generation, dictionary
//! resolution with deconjugation fallback, and enrichment.
//!
//! `lookup` is a pure function of its inputs and the immutable stores: a
//! direct dictionary hit wins; otherwise every deconjugation candidate
//! whose base form resolves contributes a result carrying its conjugation
//! chain; every surviving result is enriched with frequency, pitch-accent
//! and proficiency metadata where the providers have data.

use crate::deconjugator::{deconj_cands, DeconjModel, JapaneseDeconjugator};
use crate::dictionary::{lookup_spec, EntryModel, JMdict, JMdictEntry};
use crate::frequency::{level_spec, level_str_spec, stars_spec, JapaneseFrequency};
use crate::jlpt::{jlpt_badge_spec, JlptLevel, JlptLevels};
use crate::loader::{embedded_words, JMdictLoader};
use crate::normalize::normalize_spec;
use crate::pitch_accent::{notation_spec, JapanesePitchAccent, PitchPattern};
use crate::strutil::{clone_string_vec, dec_str, star_seq, star_string, tbl_get, u32_to_string};
use vstd::prelude::*;

verus! {

/// One candidate lookup unit: a substring of the normalized source text
/// and its starting character offset.
pub struct Token {
    pub surface: String,
    pub normalized: String,
    pub position: usize,
}

/// The mathematical value of a token.
#[verifier::ext_equal]
pub ghost struct TokenModel {
    pub surface: Seq<char>,
    pub normalized: Seq<char>,
    pub position: int,
}

impl View for Token {
    type V = TokenModel;

    open spec fn view(&self) -> TokenModel {
        TokenModel {
            surface: self.surface@,
            normalized: self.normalized@,
            position: self.position as int,
        }
    }
}

impl DeepView for Token {
    type V = TokenModel;

    open spec fn deep_view(&self) -> TokenModel {
        self.view()
    }
}

/// The enrichment of one result: named optional fields, each attached
/// only when the corresponding provider has data for the display term.
pub struct LookupMetadata {
    pub frequency_rank: Option<String>,
    pub frequency_level: Option<String>,
    pub frequency_stars: Option<String>,
    pub pitch_accent: Option<String>,
    pub jlpt_level: Option<String>,
    pub conjugation: Option<String>,
    pub base_form: Option<String>,
}

/// The mathematical value of the metadata.
#[verifier::ext_equal]
pub ghost struct MetadataModel {
    pub frequency_rank: Option<Seq<char>>,
    pub frequency_level: Option<Seq<char>>,
    pub frequency_stars: Option<Seq<char>>,
    pub pitch_accent: Option<Seq<char>>,
    pub jlpt_level: Option<Seq<char>>,
    pub conjugation: Option<Seq<char>>,
    pub base_form: Option<Seq<char>>,
}

impl View for LookupMetadata {
    type V = MetadataModel;

    open spec fn view(&self) -> MetadataModel {
        MetadataModel {
            frequency_rank: match self.frequency_rank {
                Some(ref s) => Some(s@),
                None => None,
            },
            frequency_level: match self.frequency_level {
                Some(ref s) => Some(s@),
                None => None,
            },
            frequency_stars: match self.frequency_stars {
                Some(ref s) => Some(s@),
                None => None,
            },
            pitch_accent: match self.pitch_accent {
                Some(ref s) => Some(s@),
                None => None,
            },
            jlpt_level: match self.jlpt_level {
                Some(ref s) => Some(s@),
                None => None,
            },
            conjugation: match self.conjugation {
                Some(ref s) => Some(s@),
                None => None,
            },
            base_form: match self.base_form {
                Some(ref s) => Some(s@),
                None => None,
            },
        }
    }
}

/// One lookup result: the display headword, its readings and definitions,
/// and the attached enrichment.
pub struct LookupResult {
    pub term: String,
    pub readings: Vec<String>,
    pub definitions: Vec<String>,
    pub metadata: LookupMetadata,
}

/// The mathematical value of a result.
#[verifier::ext_equal]
pub ghost struct ResultModel {
    pub term: Seq<char>,
    pub readings: Seq<Seq<char>>,
    pub definitions: Seq<Seq<char>>,
    pub metadata: MetadataModel,
}

impl View for LookupResult {
    type V = ResultModel;

    open spec fn view(&self) -> ResultModel {
        ResultModel {
            term: self.term@,
            readings: self.readings.deep_view(),
            definitions: self.definitions.deep_view(),
            metadata: self.metadata@,
        }
    }
}

impl DeepView for LookupResult {
    type V = ResultModel;

    open spec fn deep_view(&self) -> ResultModel {
        self.view()
    }
}

/// Metadata with nothing attached.
pub open spec fn empty_meta() -> MetadataModel {
    MetadataModel {
        frequency_rank: None,
        frequency_level: None,
        frequency_stars: None,
        pitch_accent: None,
        jlpt_level: None,
        conjugation: None,
        base_form: None,
    }
}

/// The bare result of one dictionary entry: its headword, readings and
/// glosses, with nothing attached yet.
pub open spec fn base_result(e: EntryModel) -> ResultModel {
    ResultModel {
        term: e.headword(),
        readings: e.readings,
        definitions: e.meanings,
        metadata: empty_meta(),
    }
}

/// The conjugation chain description: "surface -> base (type)".
pub open spec fn conj_chain(t: Seq<char>, c: DeconjModel) -> Seq<char> {
    t + " \u{2192} "@ + c.base_form + " ("@ + c.conjugation_type + ")"@
}

/// The result of one dictionary entry reached through a deconjugation
/// candidate: the bare result with the conjugation chain and base form
/// attached.
pub open spec fn deconj_result(t: Seq<char>, c: DeconjModel, e: EntryModel) -> ResultModel {
    ResultModel {
        term: e.headword(),
        readings: e.readings,
        definitions: e.meanings,
        metadata: MetadataModel {
            conjugation: Some(conj_chain(t, c)),
            base_form: Some(c.base_form),
            ..empty_meta()
        },
    }
}

/// The results of the deconjugation fallback: each candidate in rule
/// order, each dictionary entry its base form resolves to in store order.
pub open spec fn deconj_results(
    d: Seq<EntryModel>,
    t: Seq<char>,
    cs: Seq<DeconjModel>,
) -> Seq<ResultModel>
    decreases cs.len(),
{
    if cs.len() == 0 {
        Seq::empty()
    } else {
        deconj_results(d, t, cs.drop_last()) + lookup_spec(d, cs.last().base_form).map_values(
            |e: EntryModel| deconj_result(t, cs.last(), e),
        )
    }
}

/// The model of the orchestrator: the dictionary and the three enrichment
/// tables.  The deconjugator carries no state.
#[verifier::ext_equal]
pub ghost struct ProcModel {
    pub dict: Seq<EntryModel>,
    pub freq: Seq<(Seq<char>, u32)>,
    pub pitch: Seq<(Seq<char>, PitchPattern)>,
    pub jlpt: Seq<(Seq<char>, JlptLevel)>,
}

/// A result enriched against the three tables, keyed by its display term:
/// rank and level always reflect the frequency table (the level is
/// attached even when unknown), stars only when positive, pitch notation
/// and proficiency badge only when their tables know the term.
pub open spec fn enrich(p: ProcModel, r: ResultModel) -> ResultModel {
    let rank = tbl_get(p.freq, r.term);
    ResultModel {
        term: r.term,
        readings: r.readings,
        definitions: r.definitions,
        metadata: MetadataModel {
            frequency_rank: match rank {
                Some(v) => Some(dec_str(v as nat)),
                None => None,
            },
            frequency_level: Some(level_str_spec(level_spec(rank))),
            frequency_stars: if stars_spec(rank) > 0 {
                Some(star_seq(stars_spec(rank) as nat))
            } else {
                None
            },
            pitch_accent: match tbl_get(p.pitch, r.term) {
                Some(pat) => Some(notation_spec(pat)),
                None => None,
            },
            jlpt_level: match tbl_get(p.jlpt, r.term) {
                Some(l) => Some(jlpt_badge_spec(l)),
                None => None,
            },
            conjugation: r.metadata.conjugation,
            base_form: r.metadata.base_form,
        },
    }
}

/// What `lookup` returns for a normalized term: direct dictionary hits,
/// else the deconjugation fallback, every result enriched.
pub open spec fn lookup_results(p: ProcModel, t: Seq<char>) -> Seq<ResultModel> {
    let direct = lookup_spec(p.dict, t).map_values(|e: EntryModel| base_result(e));
    let raw = if direct.len() == 0 {
        deconj_results(p.dict, t, deconj_cands(t))
    } else {
        direct
    };
    raw.map_values(|r: ResultModel| enrich(p, r))
}

/// The spans of the normalized text: for every start offset, every
/// substring of length one through ten (or through the characters that
/// remain), longest first.
pub open spec fn spans_at(cs: Seq<char>, i: int, len: int) -> Seq<TokenModel>
    decreases len,
{
    if len <= 0 {
        Seq::empty()
    } else {
        seq![
            TokenModel {
                surface: cs.subrange(i, i + len),
                normalized: cs.subrange(i, i + len),
                position: i,
            },
        ] + spans_at(cs, i, len - 1)
    }
}

/// The longest span emitted at offset `i`.
pub open spec fn max_span(cs: Seq<char>, i: int) -> int {
    if cs.len() - i < 10 {
        cs.len() - i
    } else {
        10
    }
}

/// The spans of all start offsets below `i`, in offset order.
pub open spec fn spans_upto(cs: Seq<char>, i: int) -> Seq<TokenModel>
    decreases i,
{
    if i <= 0 {
        Seq::empty()
    } else {
        spans_upto(cs, i - 1) + spans_at(cs, i - 1, max_span(cs, i - 1))
    }
}

/// Every span of the normalized text.
pub open spec fn tokens_spec(cs: Seq<char>) -> Seq<TokenModel> {
    spans_upto(cs, cs.len() as int)
}

/// The span count of the first `i` offsets: the sum over each offset of
/// the lesser of ten and the characters that remain there.
pub open spec fn span_count_upto(n: int, i: int) -> int
    decreases i,
{
    if i <= 0 {
        0
    } else {
        span_count_upto(n, i - 1) + (if n - (i - 1) < 10 {
            n - (i - 1)
        } else {
            10
        })
    }
}

proof fn lemma_spans_at_len(cs: Seq<char>, i: int, len: int)
    requires
        len >= 0,
    ensures
        spans_at(cs, i, len).len() == len,
    decreases len,
{
    if len > 0 {
        lemma_spans_at_len(cs, i, len - 1);
    }
}

/// Span generation emits exactly the sum over every start offset of the
/// lesser of ten and the remaining length.
pub proof fn lemma_tokenize_count(cs: Seq<char>)
    ensures
        tokens_spec(cs).len() == span_count_upto(cs.len() as int, cs.len() as int),
{
    lemma_spans_upto_len(cs, cs.len() as int);
}

proof fn lemma_spans_upto_len(cs: Seq<char>, i: int)
    requires
        i <= cs.len(),
    ensures
        spans_upto(cs, i).len() == span_count_upto(cs.len() as int, i),
    decreases i,
{
    if i > 0 {
        lemma_spans_upto_len(cs, i - 1);
        lemma_spans_at_len(cs, i - 1, max_span(cs, i - 1));
    }
}

/// The orchestrator: the dictionary store, the deconjugator, and the
/// three enrichment providers, composed behind one lookup entry point.
pub struct JapaneseProcessor {
    dictionary: JMdict,
    deconjugator: JapaneseDeconjugator,
    frequency: JapaneseFrequency,
    pitch_accent: JapanesePitchAccent,
    jlpt: JlptLevels,
}

impl View for JapaneseProcessor {
    type V = ProcModel;

    closed spec fn view(&self) -> ProcModel {
        ProcModel {
            dict: self.dictionary@,
            freq: self.frequency@,
            pitch: self.pitch_accent@,
            jlpt: self.jlpt@,
        }
    }
}

impl JapaneseProcessor {
    /// A processor over the embedded dictionary and the default
    /// enrichment tables.
    pub fn new() -> (p: JapaneseProcessor)
        ensures
            p@.dict == crate::dictionary::load_spec(embedded_words()),
            p@.freq == crate::frequency::default_frequencies(),
            p@.pitch == crate::pitch_accent::default_pitch_words(),
            p@.jlpt == crate::jlpt::default_jlpt_words(),
    {
        Self::with_additional_dicts(Vec::new())
    }

    /// A processor over the embedded dictionary with the given stores
    /// merged on top in order, and the default enrichment tables.
    pub fn with_additional_dicts(additional: Vec<JMdict>) -> (p: JapaneseProcessor)
        ensures
            p@.dict == merge_all(
                crate::dictionary::load_spec(embedded_words()),
                additional.deep_view(),
            ),
            p@.freq == crate::frequency::default_frequencies(),
            p@.pitch == crate::pitch_accent::default_pitch_words(),
            p@.jlpt == crate::jlpt::default_jlpt_words(),
    {
        let mut dict = match JMdictLoader::load_embedded() {
            Ok(d) => d,
            Err(_) => JMdict::new(),
        };
        let ghost all = additional.deep_view();
        let mut rest = additional;
        while rest.len() > 0
            invariant
                merge_all(dict@, rest.deep_view()) == merge_all(
                    crate::dictionary::load_spec(embedded_words()),
                    all,
                ),
            decreases rest.len(),
        {
            let ghost pre = rest.deep_view();
            let d = rest.remove(0);
            proof {
                assert(d.deep_view() == pre.first());
                assert(rest.deep_view() =~= pre.drop_first());
            }
            dict = JMdictLoader::merge(dict, d);
        }
        proof {
            assert(rest.deep_view().len() == 0);
        }
        JapaneseProcessor {
            dictionary: dict,
            deconjugator: JapaneseDeconjugator::new(),
            frequency: JapaneseFrequency::with_defaults(),
            pitch_accent: JapanesePitchAccent::with_defaults(),
            jlpt: JlptLevels::with_defaults(),
        }
    }

    /// The language this processor serves.
    pub fn language_code(&self) -> (r: &'static str)
        ensures
            r@ == "ja"@,
    {
        "ja"
    }

    /// NFKC-normalize the text and remove every whitespace character
    /// except the literal space.
    pub fn normalize(&self, text: &str) -> (r: String)
        ensures
            r@ == normalize_spec(text@),
    {
        crate::normalize::normalize(text)
    }

    /// All candidate spans of the text after normalization: for every
    /// start offset, every substring of length one through ten, longest
    /// first.  Span count grows with input length; most spans are not
    /// words and are expected to miss.
    pub fn tokenize(&self, text: &str) -> (r: Vec<Token>)
        ensures
            r.deep_view() == tokens_spec(normalize_spec(text@)),
    {
        let normalized = crate::normalize::normalize(text);
        let ghost cs = normalized@;
        let n = normalized.as_str().unicode_len();
        let mut tokens: Vec<Token> = Vec::new();
        let mut i: usize = 0;
        while i < n
            invariant
                i <= n,
                n == cs.len(),
                cs == normalized@,
                cs == normalize_spec(text@),
                tokens.deep_view() =~= spans_upto(cs, i as int),
            decreases n - i,
        {
            let remaining = n - i;
            let cap = if remaining < 10 {
                remaining
            } else {
                10
            };
            assert(cap == max_span(cs, i as int));
            let ghost outer_pre = tokens.deep_view();
            let mut len = cap;
            while len > 0
                invariant
                    len <= cap,
                    i + cap <= n,
                    n == cs.len(),
                    cs == normalized@,
                    cap == max_span(cs, i as int),
                    tokens.deep_view() + spans_at(cs, i as int, len as int) =~= outer_pre
                        + spans_at(cs, i as int, cap as int),
                decreases len,
            {
                let piece = normalized.as_str().substring_char(i, i + len);
                let surface = String::from_str(piece);
                let token = Token {
                    surface,
                    normalized: String::from_str(piece),
                    position: i,
                };
                assert(token@.surface =~= cs.subrange(i as int, i + len));
                tokens.push(token);
                len = len - 1;
            }
            proof {
                assert(spans_at(cs, i as int, 0) =~= Seq::<TokenModel>::empty());
                assert(tokens.deep_view() =~= outer_pre + spans_at(cs, i as int, cap as int));
            }
            i += 1;
        }
        tokens
    }

    /// Every result for the token: direct dictionary hits on its
    /// normalized text; if none, every deconjugation candidate whose base
    /// form resolves, carrying its conjugation chain; all results
    /// enriched.  An empty result is the normal "no match", not an error.
    #[verifier::rlimit(100)]
    pub fn lookup(&self, token: &Token) -> (r: Vec<LookupResult>)
        ensures
            r.deep_view() == lookup_results(self@, token.normalized@),
    {
        let t = token.normalized.as_str();
        let ghost tm = token.normalized@;
        let direct = self.dictionary.lookup_exact(t);
        let ghost direct_m = lookup_spec(self@.dict, tm);
        let mut raw: Vec<LookupResult> = Vec::new();
        if direct.len() > 0 {
            let ghost mapped = direct_m.map_values(|e: EntryModel| base_result(e));
            let mut i: usize = 0;
            while i < direct.len()
                invariant
                    i <= direct.len(),
                    direct.deep_view() == direct_m,
                    mapped == direct_m.map_values(|e: EntryModel| base_result(e)),
                    raw.deep_view() =~= mapped.take(i as int),
                decreases direct.len() - i,
            {
                let e = &direct[i];
                assert(e.deep_view() == direct_m[i as int]);
                raw.push(entry_to_result(e));
                proof {
                    assert(mapped.take(i + 1) =~= mapped.take(i as int).push(
                        mapped[i as int],
                    ));
                }
                i += 1;
            }
            proof {
                assert(mapped.take(mapped.len() as int) =~= mapped);
            }
        } else {
            proof {
                assert(direct_m.map_values(|e: EntryModel| base_result(e)).len() == 0);
            }
            let cands = self.deconjugator.deconjugate(t);
            let ghost cs = deconj_cands(tm);
            let mut ci: usize = 0;
            while ci < cands.len()
                invariant
                    ci <= cands.len(),
                    cands.deep_view() == cs,
                    tm == token.normalized@,
                    raw.deep_view() =~= deconj_results(self@.dict, tm, cs.take(ci as int)),
                decreases cands.len() - ci,
            {
                let c = &cands[ci];
                assert(c.deep_view() == cs[ci as int]);
                let entries = self.dictionary.lookup_exact(c.base_form.as_str());
                let ghost es = lookup_spec(self@.dict, cs[ci as int].base_form);
                let ghost mapped = es.map_values(
                    |e: EntryModel| deconj_result(tm, cs[ci as int], e),
                );
                let ghost pre = raw.deep_view();
                let mut ei: usize = 0;
                while ei < entries.len()
                    invariant
                        ei <= entries.len(),
                        ci < cands.len(),
                        cands.deep_view() == cs,
                        c.deep_view() == cs[ci as int],
                        tm == token.normalized@,
                        entries.deep_view() == es,
                        mapped == es.map_values(
                            |e: EntryModel| deconj_result(tm, cs[ci as int], e),
                        ),
                        raw.deep_view() =~= pre + mapped.take(ei as int),
                    decreases entries.len() - ei,
                {
                    let e = &entries[ei];
                    assert(e.deep_view() == es[ei as int]);
                    let mut res = entry_to_result(e);
                    let chain = token.normalized.clone().concat(" \u{2192} ").concat(
                        c.base_form.as_str(),
                    ).concat(" (").concat(c.conjugation_type.as_str()).concat(")");
                    proof {
                        assert(chain@ =~= conj_chain(tm, cs[ci as int]));
                    }
                    res.metadata.conjugation = Some(chain);
                    res.metadata.base_form = Some(c.base_form.clone());
                    proof {
                        assert(res@.metadata =~= deconj_result(
                            tm,
                            cs[ci as int],
                            es[ei as int],
                        ).metadata);
                        assert(res@ =~= deconj_result(tm, cs[ci as int], es[ei as int]));
                        assert(mapped[ei as int] == deconj_result(tm, cs[ci as int], es[ei as int]));
                        assert(mapped.take(ei + 1) =~= mapped.take(ei as int).push(
                            mapped[ei as int],
                        ));
                    }
                    let ghost prev = raw.deep_view();
                    let ghost resm = res@;
                    raw.push(res);
                    proof {
                        assert(raw.deep_view() =~= prev.push(resm));
                        assert(prev.push(resm) =~= pre + mapped.take(ei + 1));
                    }
                    ei += 1;
                }
                proof {
                    assert(mapped.take(mapped.len() as int) =~= mapped);
                    let tk = cs.take(ci + 1);
                    assert(tk.drop_last() =~= cs.take(ci as int));
                    assert(tk.last() == cs[ci as int]);
                }
                ci += 1;
            }
            proof {
                assert(cs.take(cs.len() as int) =~= cs);
            }
        }
        let ghost raw_m = raw.deep_view();
        let mut out: Vec<LookupResult> = Vec::new();
        let mut ri: usize = 0;
        let ghost enriched = raw_m.map_values(|r: ResultModel| enrich(self@, r));
        while ri < raw.len()
            invariant
                ri <= raw.len(),
                raw.deep_view() == raw_m,
                enriched == raw_m.map_values(|r: ResultModel| enrich(self@, r)),
                out.deep_view() =~= enriched.take(ri as int),
            decreases raw.len() - ri,
        {
            let r = &raw[ri];
            assert(r.deep_view() == raw_m[ri as int]);
            out.push(self.enrich_one(r));
            proof {
                assert(enriched.take(ri + 1) =~= enriched.take(ri as int).push(
                    enriched[ri as int],
                ));
            }
            ri += 1;
        }
        proof {
            assert(enriched.take(enriched.len() as int) =~= enriched);
            assert(out.deep_view() =~= lookup_results(self@, tm));
        }
        out
    }

    /// Attach frequency, pitch-accent and proficiency metadata to one
    /// result, keyed by its display term.
    fn enrich_one(&self, r: &LookupResult) -> (out: LookupResult)
        ensures
            out@ == enrich(self@, r@),
    {
        let term = r.term.as_str();
        let rank = self.frequency.get_rank(term);
        let frequency_rank = match rank {
            Some(v) => Some(u32_to_string(v)),
            None => None,
        };
        let frequency_level = Some(String::from_str(self.frequency.get_level(term).as_str()));
        let stars = self.frequency.get_stars(term);
        let frequency_stars = if stars > 0 {
            Some(star_string(stars))
        } else {
            None
        };
        let pitch_accent = self.pitch_accent.get_notation(term);
        let jlpt_level = match self.jlpt.get_level(term) {
            Some(l) => Some(l.badge()),
            None => None,
        };
        let conjugation = match &r.metadata.conjugation {
            Some(s) => Some(s.clone()),
            None => None,
        };
        let base_form = match &r.metadata.base_form {
            Some(s) => Some(s.clone()),
            None => None,
        };
        let out = LookupResult {
            term: r.term.clone(),
            readings: clone_string_vec(&r.readings),
            definitions: clone_string_vec(&r.definitions),
            metadata: LookupMetadata {
                frequency_rank,
                frequency_level,
                frequency_stars,
                pitch_accent,
                jlpt_level,
                conjugation,
                base_form,
            },
        };
        proof {
            assert(out@ =~= enrich(self@, r@));
        }
        out
    }
}

/// A word the frequency table lacks is never starred: every result whose
/// display term is absent from the table carries no frequency-stars
/// metadata (and its star rating is zero by `stars_spec`).
pub proof fn lemma_absent_word_unstarred(p: ProcModel, t: Seq<char>, i: int)
    requires
        0 <= i < lookup_results(p, t).len(),
        tbl_get(p.freq, lookup_results(p, t)[i].term) is None,
    ensures
        lookup_results(p, t)[i].metadata.frequency_stars is None,
{
    let direct = lookup_spec(p.dict, t).map_values(|e: EntryModel| base_result(e));
    let raw = if direct.len() == 0 {
        deconj_results(p.dict, t, deconj_cands(t))
    } else {
        direct
    };
    assert(lookup_results(p, t)[i] == enrich(p, raw[i]));
    assert(enrich(p, raw[i]).term == raw[i].term);
}

/// The stores of `dicts` folded onto `base` in order, each merge letting
/// the later store override shared identifiers.
pub open spec fn merge_all(base: Seq<EntryModel>, dicts: Seq<Seq<EntryModel>>) -> Seq<EntryModel>
    decreases dicts.len(),
{
    if dicts.len() == 0 {
        base
    } else {
        merge_all(crate::dictionary::merge_spec(base, dicts.first()), dicts.drop_first())
    }
}

/// The bare result of one entry: headword, readings and glosses copied,
/// no metadata attached.
fn entry_to_result(e: &JMdictEntry) -> (r: LookupResult)
    ensures
        r@ == base_result(e@),
{
    let r = LookupResult {
        term: e.headword(),
        readings: clone_string_vec(&e.readings),
        definitions: clone_string_vec(&e.meanings),
        metadata: LookupMetadata {
            frequency_rank: None,
            frequency_level: None,
            frequency_stars: None,
            pitch_accent: None,
            jlpt_level: None,
            conjugation: None,
            base_form: None,
        },
    };
    proof {
        assert(r@ =~= base_result(e@));
    }
    r
}

} // verus!
