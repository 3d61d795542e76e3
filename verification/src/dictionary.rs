//! The dictionary store: immutable entries with exact-match lookup by
//! headword spelling or reading, identifier lookup, loading from structured
//! word records, and last-writer-wins merging of stores.

use crate::strutil::{clone_string_vec, str_eq, vec_contains_str};
use vstd::prelude::*;

verus! {

/// One immutable dictionary entry: spellings, readings, glosses,
/// part-of-speech tags, and optional proficiency and frequency metadata.
pub struct JMdictEntry {
    pub id: String,
    pub kanji: Vec<String>,
    pub readings: Vec<String>,
    pub meanings: Vec<String>,
    pub pos: Vec<String>,
    pub jlpt_level: Option<u8>,
    pub frequency_rank: Option<u32>,
}

/// The mathematical value of an entry: every string as its character
/// sequence.
#[verifier::ext_equal]
pub ghost struct EntryModel {
    pub id: Seq<char>,
    pub kanji: Seq<Seq<char>>,
    pub readings: Seq<Seq<char>>,
    pub meanings: Seq<Seq<char>>,
    pub pos: Seq<Seq<char>>,
    pub jlpt_level: Option<u8>,
    pub frequency_rank: Option<u32>,
}

impl EntryModel {
    /// The canonical written form: the first spelling, else the first
    /// reading, else empty.
    pub open spec fn headword(self) -> Seq<char> {
        if self.kanji.len() > 0 {
            self.kanji[0]
        } else if self.readings.len() > 0 {
            self.readings[0]
        } else {
            Seq::empty()
        }
    }

    /// Whether an exact-match query for `term` reaches this entry: the term
    /// is one of its spellings or one of its readings.
    pub open spec fn matches(self, term: Seq<char>) -> bool {
        self.kanji.contains(term) || self.readings.contains(term)
    }
}

impl View for JMdictEntry {
    type V = EntryModel;

    open spec fn view(&self) -> EntryModel {
        EntryModel {
            id: self.id@,
            kanji: self.kanji.deep_view(),
            readings: self.readings.deep_view(),
            meanings: self.meanings.deep_view(),
            pos: self.pos.deep_view(),
            jlpt_level: self.jlpt_level,
            frequency_rank: self.frequency_rank,
        }
    }
}

impl DeepView for JMdictEntry {
    type V = EntryModel;

    open spec fn deep_view(&self) -> EntryModel {
        self.view()
    }
}

impl JMdictEntry {
    /// The canonical written form of the entry.
    pub fn headword(&self) -> (r: String)
        ensures
            r@ == self@.headword(),
    {
        if self.kanji.len() > 0 {
            self.kanji[0].clone()
        } else if self.readings.len() > 0 {
            self.readings[0].clone()
        } else {
            String::new()
        }
    }
}

/// Copy an entry, keeping its value.
pub fn clone_entry(e: &JMdictEntry) -> (r: JMdictEntry)
    ensures
        r@ == e@,
{
    let r = JMdictEntry {
        id: e.id.clone(),
        kanji: clone_string_vec(&e.kanji),
        readings: clone_string_vec(&e.readings),
        meanings: clone_string_vec(&e.meanings),
        pos: clone_string_vec(&e.pos),
        jlpt_level: e.jlpt_level,
        frequency_rank: e.frequency_rank,
    };
    proof {
        assert(r@ =~= e@);
    }
    r
}

/// The entries of `d` that an exact-match query for `term` reaches, in
/// store order.  Each entry is examined once, so no duplicates arise.
pub open spec fn lookup_spec(d: Seq<EntryModel>, term: Seq<char>) -> Seq<EntryModel>
    decreases d.len(),
{
    if d.len() == 0 {
        Seq::empty()
    } else {
        lookup_spec(d.drop_last(), term) + (if d.last().matches(term) {
            seq![d.last()]
        } else {
            Seq::<EntryModel>::empty()
        })
    }
}

/// The first entry of `d` carrying identifier `id`, if any.
pub open spec fn find_by_id(d: Seq<EntryModel>, id: Seq<char>) -> Option<EntryModel>
    decreases d.len(),
{
    if d.len() == 0 {
        None
    } else if d.first().id == id {
        Some(d.first())
    } else {
        find_by_id(d.drop_first(), id)
    }
}

/// The dictionary store.  Its value is the sequence of entry models in
/// store order; every operation's contract is stated over that sequence.
pub struct JMdict {
    entries: Vec<JMdictEntry>,
}

impl View for JMdict {
    type V = Seq<EntryModel>;

    closed spec fn view(&self) -> Seq<EntryModel> {
        self.entries.deep_view()
    }
}

impl DeepView for JMdict {
    type V = Seq<EntryModel>;

    open spec fn deep_view(&self) -> Seq<EntryModel> {
        self.view()
    }
}

/// Why a dictionary dataset failed to load.  A failed load yields no
/// store: the caller's documented fallback is an empty store.
pub enum LoadError {
    FileNotFound(String),
    InvalidFormat(String),
    ParseError(String),
    IoError(String),
}

/// The message of a load error.
pub open spec fn load_error_msg_spec(e: LoadError) -> Seq<char> {
    match e {
        LoadError::FileNotFound(p) => "File not found: "@ + p@,
        LoadError::InvalidFormat(m) => "Invalid format: "@ + m@,
        LoadError::ParseError(m) => "Parse error: "@ + m@,
        LoadError::IoError(m) => "IO error: "@ + m@,
    }
}

impl LoadError {
    /// The human-readable message of the error.
    pub fn message(&self) -> (r: String)
        ensures
            r@ == load_error_msg_spec(*self),
    {
        match self {
            LoadError::FileNotFound(p) => String::from_str("File not found: ").concat(p.as_str()),
            LoadError::InvalidFormat(m) => String::from_str("Invalid format: ").concat(m.as_str()),
            LoadError::ParseError(m) => String::from_str("Parse error: ").concat(m.as_str()),
            LoadError::IoError(m) => String::from_str("IO error: ").concat(m.as_str()),
        }
    }
}

proof fn lemma_lookup_take_step(d: Seq<EntryModel>, term: Seq<char>, i: int)
    requires
        0 <= i < d.len(),
    ensures
        lookup_spec(d.take(i + 1), term) == lookup_spec(d.take(i), term) + (if d[i].matches(
            term,
        ) {
            seq![d[i]]
        } else {
            Seq::<EntryModel>::empty()
        }),
{
    let t = d.take(i + 1);
    assert(t.drop_last() =~= d.take(i));
    assert(t.last() == d[i]);
}

impl JMdict {
    /// The empty store.
    pub fn new() -> (d: JMdict)
        ensures
            d@ =~= Seq::<EntryModel>::empty(),
    {
        JMdict { entries: Vec::new() }
    }

    /// How many entries the store holds.
    pub fn entry_count(&self) -> (n: usize)
        ensures
            n == self@.len(),
    {
        self.entries.len()
    }

    /// Every entry whose spellings or readings contain `query`, exactly, in
    /// store order.  Each entry appears at most once.  An empty result is
    /// the normal representation of "no match", never an error.
    pub fn lookup_exact(&self, query: &str) -> (r: Vec<JMdictEntry>)
        ensures
            r.deep_view() == lookup_spec(self@, query@),
    {
        let mut out: Vec<JMdictEntry> = Vec::new();
        let mut i: usize = 0;
        while i < self.entries.len()
            invariant
                i <= self.entries.len(),
                self@.len() == self.entries.len(),
                out.deep_view() =~= lookup_spec(self@.take(i as int), query@),
            decreases self.entries.len() - i,
        {
            let e = &self.entries[i];
            assert(e.deep_view() == self@[i as int]);
            proof {
                lemma_lookup_take_step(self@, query@, i as int);
            }
            if vec_contains_str(&e.kanji, query) || vec_contains_str(&e.readings, query) {
                out.push(clone_entry(e));
            }
            i += 1;
        }
        proof {
            assert(self@.take(self@.len() as int) =~= self@);
        }
        out
    }

    /// Build a store from structured word records.  Only glosses tagged as
    /// English are retained; a word whose senses carry no English gloss is
    /// dropped, since it could never yield a useful result.
    pub fn load(words: &Vec<RawWord>) -> (d: JMdict)
        ensures
            d@ == load_spec(words.deep_view()),
    {
        let ghost ws = words.deep_view();
        let mut entries: Vec<JMdictEntry> = Vec::new();
        let mut wi: usize = 0;
        while wi < words.len()
            invariant
                wi <= words.len(),
                ws == words.deep_view(),
                entries.deep_view() =~= load_spec(ws.take(wi as int)),
            decreases words.len() - wi,
        {
            let w = &words[wi];
            assert(w.deep_view() == ws[wi as int]);
            let (meanings, pos) = extract_senses(&w.senses);
            proof {
                lemma_load_take_step(ws, wi as int);
            }
            if meanings.len() > 0 {
                let entry = JMdictEntry {
                    id: w.id.clone(),
                    kanji: clone_string_vec(&w.kanji),
                    readings: clone_string_vec(&w.kana),
                    meanings,
                    pos,
                    jlpt_level: None,
                    frequency_rank: None,
                };
                proof {
                    assert(entry.deep_view() =~= word_entry(ws[wi as int]));
                }
                entries.push(entry);
            }
            wi += 1;
        }
        proof {
            assert(ws.take(ws.len() as int) =~= ws);
        }
        JMdict { entries }
    }

    /// A new store in which entries of `other` override entries of `self`
    /// sharing their identifier, and all other entries of both survive in
    /// order: `self`'s surviving entries first, then `other`'s.
    pub fn merge(self, other: JMdict) -> (d: JMdict)
        ensures
            d@ == merge_spec(self@, other@),
    {
        let ghost base = self@;
        let ghost o = other@;
        let mut acc = self.entries;
        let mut k: usize = 0;
        proof {
            assert(o.take(0) =~= Seq::<EntryModel>::empty());
        }
        while k < other.entries.len()
            invariant
                k <= other.entries.len(),
                o == other@,
                o.len() == other.entries.len(),
                acc.deep_view() =~= merge_spec(base, o.take(k as int)),
            decreases other.entries.len() - k,
        {
            let e = &other.entries[k];
            assert(e.deep_view() == o[k as int]);
            proof {
                lemma_merge_take_step(base, o, k as int);
            }
            acc = remove_id_exec(acc, e.id.as_str());
            acc.push(clone_entry(e));
            k += 1;
        }
        proof {
            assert(o.take(o.len() as int) =~= o);
        }
        JMdict { entries: acc }
    }

    /// The first entry carrying the identifier, if the store has one.
    pub fn get_by_id(&self, id: &str) -> (r: Option<JMdictEntry>)
        ensures
            match r {
                Some(e) => find_by_id(self@, id@) == Some(e@),
                None => find_by_id(self@, id@) is None,
            },
    {
        let mut i: usize = 0;
        proof {
            assert(self@.skip(0) =~= self@);
        }
        while i < self.entries.len()
            invariant
                i <= self.entries.len(),
                self@.len() == self.entries.len(),
                find_by_id(self@, id@) == find_by_id(self@.skip(i as int), id@),
            decreases self.entries.len() - i,
        {
            let e = &self.entries[i];
            assert(e.deep_view() == self@[i as int]);
            proof {
                assert(self@.skip(i as int).first() == self@[i as int]);
            }
            if str_eq(e.id.as_str(), id) {
                return Some(clone_entry(e));
            }
            proof {
                assert(self@.skip(i as int).drop_first() =~= self@.skip(i + 1));
            }
            i += 1;
        }
        proof {
            assert(self@.skip(self@.len() as int).len() == 0);
        }
        None
    }
}

/// How a search should match its query.
#[derive(Debug, Clone, Copy)]
pub enum MatchType {
    Exact,
    Prefix,
    Suffix,
    Contains,
}

/// Options of a dictionary search.
#[derive(Debug, Clone)]
pub struct SearchOptions {
    pub max_results: usize,
    pub match_type: MatchType,
    pub language_specific: Vec<(String, String)>,
}

impl Default for SearchOptions {
    /// At most ten results, matched exactly, with no language-specific
    /// options.
    fn default() -> (o: SearchOptions)
        ensures
            o.max_results == 10,
            o.match_type is Exact,
            o.language_specific@.len() == 0,
    {
        SearchOptions {
            max_results: 10,
            match_type: MatchType::Exact,
            language_specific: Vec::new(),
        }
    }
}

/// Descriptive facts about a dictionary.
#[derive(Debug, Clone)]
pub struct DictionaryMetadata {
    pub name: String,
    pub version: String,
    pub language: String,
    pub entry_count: usize,
}

/// One definition: its text, part-of-speech tags, and free-form tags.
#[derive(Debug, Clone)]
pub struct Definition {
    pub text: String,
    pub part_of_speech: Vec<String>,
    pub tags: Vec<String>,
}

/// A dictionary entry in the flattened shape some loaders use.
#[derive(Debug, Clone)]
pub struct DictEntry {
    pub kanji: Vec<String>,
    pub readings: Vec<String>,
    pub meanings: Vec<String>,
    pub pos: Vec<String>,
    pub jlpt_level: Option<u8>,
    pub frequency_rank: Option<u32>,
    pub pitch_accent: Option<String>,
}

/// Descriptive facts about a loaded dictionary file.
pub struct DictInfo {
    pub name: String,
    pub language: String,
    pub entry_count: usize,
}

/// One gloss of a raw word record: a language tag and a definition text.
pub struct RawGloss {
    pub lang: String,
    pub text: String,
}

/// The mathematical value of a gloss.
#[verifier::ext_equal]
pub ghost struct GlossModel {
    pub lang: Seq<char>,
    pub text: Seq<char>,
}

impl View for RawGloss {
    type V = GlossModel;

    open spec fn view(&self) -> GlossModel {
        GlossModel { lang: self.lang@, text: self.text@ }
    }
}

impl DeepView for RawGloss {
    type V = GlossModel;

    open spec fn deep_view(&self) -> GlossModel {
        self.view()
    }
}

/// One sense group of a raw word record: part-of-speech tags and glosses.
pub struct RawSense {
    pub part_of_speech: Vec<String>,
    pub glosses: Vec<RawGloss>,
}

/// The mathematical value of a sense group.
#[verifier::ext_equal]
pub ghost struct SenseModel {
    pub part_of_speech: Seq<Seq<char>>,
    pub glosses: Seq<GlossModel>,
}

impl View for RawSense {
    type V = SenseModel;

    open spec fn view(&self) -> SenseModel {
        SenseModel {
            part_of_speech: self.part_of_speech.deep_view(),
            glosses: self.glosses.deep_view(),
        }
    }
}

impl DeepView for RawSense {
    type V = SenseModel;

    open spec fn deep_view(&self) -> SenseModel {
        self.view()
    }
}

/// One raw word record of the structured dataset: an identifier, spellings,
/// readings and sense groups.
pub struct RawWord {
    pub id: String,
    pub kanji: Vec<String>,
    pub kana: Vec<String>,
    pub senses: Vec<RawSense>,
}

/// The mathematical value of a raw word record.
#[verifier::ext_equal]
pub ghost struct WordModel {
    pub id: Seq<char>,
    pub kanji: Seq<Seq<char>>,
    pub kana: Seq<Seq<char>>,
    pub senses: Seq<SenseModel>,
}

impl View for RawWord {
    type V = WordModel;

    open spec fn view(&self) -> WordModel {
        WordModel {
            id: self.id@,
            kanji: self.kanji.deep_view(),
            kana: self.kana.deep_view(),
            senses: self.senses.deep_view(),
        }
    }
}

impl DeepView for RawWord {
    type V = WordModel;

    open spec fn deep_view(&self) -> WordModel {
        self.view()
    }
}

/// The language tag of the glosses that are retained.
pub open spec fn eng_tag() -> Seq<char> {
    seq!['e', 'n', 'g']
}

/// The texts of the English-tagged glosses, in order.
pub open spec fn eng_of_glosses(gs: Seq<GlossModel>) -> Seq<Seq<char>>
    decreases gs.len(),
{
    if gs.len() == 0 {
        Seq::empty()
    } else {
        eng_of_glosses(gs.drop_last()) + (if gs.last().lang == eng_tag() {
            seq![gs.last().text]
        } else {
            Seq::<Seq<char>>::empty()
        })
    }
}

/// All English gloss texts of the sense groups, in order.
pub open spec fn eng_of_senses(ss: Seq<SenseModel>) -> Seq<Seq<char>>
    decreases ss.len(),
{
    if ss.len() == 0 {
        Seq::empty()
    } else {
        eng_of_senses(ss.drop_last()) + eng_of_glosses(ss.last().glosses)
    }
}

/// All part-of-speech tags of the sense groups, in order.
pub open spec fn pos_of_senses(ss: Seq<SenseModel>) -> Seq<Seq<char>>
    decreases ss.len(),
{
    if ss.len() == 0 {
        Seq::empty()
    } else {
        pos_of_senses(ss.drop_last()) + ss.last().part_of_speech
    }
}

/// The entry a raw word record yields when it is retained.
pub open spec fn word_entry(w: WordModel) -> EntryModel {
    EntryModel {
        id: w.id,
        kanji: w.kanji,
        readings: w.kana,
        meanings: eng_of_senses(w.senses),
        pos: pos_of_senses(w.senses),
        jlpt_level: None,
        frequency_rank: None,
    }
}

/// What loading yields: every word with at least one English gloss becomes
/// an entry, in input order; the others are dropped.
pub open spec fn load_spec(ws: Seq<WordModel>) -> Seq<EntryModel>
    decreases ws.len(),
{
    if ws.len() == 0 {
        Seq::empty()
    } else {
        load_spec(ws.drop_last()) + (if eng_of_senses(ws.last().senses).len() > 0 {
            seq![word_entry(ws.last())]
        } else {
            Seq::<EntryModel>::empty()
        })
    }
}

/// The entries of `d` whose identifier is not `id`, in order.
pub open spec fn remove_id(d: Seq<EntryModel>, id: Seq<char>) -> Seq<EntryModel>
    decreases d.len(),
{
    if d.len() == 0 {
        Seq::empty()
    } else {
        remove_id(d.drop_last(), id) + (if d.last().id == id {
            Seq::<EntryModel>::empty()
        } else {
            seq![d.last()]
        })
    }
}

/// What merging yields: the entries of `other` are folded onto `base` in
/// order, each first evicting every earlier entry sharing its identifier
/// and then appending itself.
pub open spec fn merge_spec(base: Seq<EntryModel>, other: Seq<EntryModel>) -> Seq<EntryModel>
    decreases other.len(),
{
    if other.len() == 0 {
        base
    } else {
        remove_id(merge_spec(base, other.drop_last()), other.last().id) + seq![other.last()]
    }
}

/// The entries of `d` whose identifier is `id`, in order.
pub open spec fn keep_id(d: Seq<EntryModel>, id: Seq<char>) -> Seq<EntryModel>
    decreases d.len(),
{
    if d.len() == 0 {
        Seq::empty()
    } else {
        keep_id(d.drop_last(), id) + (if d.last().id == id {
            seq![d.last()]
        } else {
            Seq::<EntryModel>::empty()
        })
    }
}

/// Every entry that an exact-match query reaches stands in the store.
pub proof fn lemma_lookup_member(d: Seq<EntryModel>, term: Seq<char>, e: EntryModel)
    requires
        lookup_spec(d, term).contains(e),
    ensures
        d.contains(e),
        e.matches(term),
    decreases d.len(),
{
    let l = lookup_spec(d, term);
    let pre = lookup_spec(d.drop_last(), term);
    if d.len() > 0 {
        let k = choose|k: int| 0 <= k < l.len() && l[k] == e;
        if k < pre.len() {
            lemma_lookup_member(d.drop_last(), term, e);
            let j = choose|j: int| 0 <= j < d.drop_last().len() && d.drop_last()[j] == e;
            assert(d[j] == e);
        } else {
            assert(e == d.last());
            assert(d[d.len() - 1] == e);
        }
    }
}

/// An entry of the store that the term reaches stands in the lookup result.
pub proof fn lemma_lookup_contains(d: Seq<EntryModel>, term: Seq<char>, i: int)
    requires
        0 <= i < d.len(),
        d[i].matches(term),
    ensures
        lookup_spec(d, term).contains(d[i]),
    decreases d.len(),
{
    let l = lookup_spec(d, term);
    let pre = lookup_spec(d.drop_last(), term);
    if i == d.len() - 1 {
        assert(l[pre.len() as int] == d[i]);
    } else {
        assert(d.drop_last()[i] == d[i]);
        lemma_lookup_contains(d.drop_last(), term, i);
        let k = choose|k: int| 0 <= k < pre.len() && pre[k] == d[i];
        assert(l[k] == d[i]);
    }
}

/// Round trip: an entry with a headword is reached by looking its own
/// headword up exactly.
pub proof fn lemma_lookup_headword_roundtrip(d: Seq<EntryModel>, i: int)
    requires
        0 <= i < d.len(),
        d[i].kanji.len() > 0 || d[i].readings.len() > 0,
    ensures
        lookup_spec(d, d[i].headword()).contains(d[i]),
{
    if d[i].kanji.len() > 0 {
        assert(d[i].kanji[0] == d[i].headword());
    } else {
        assert(d[i].readings[0] == d[i].headword());
    }
    lemma_lookup_contains(d, d[i].headword(), i);
}

proof fn lemma_lookup_concat(a: Seq<EntryModel>, b: Seq<EntryModel>, term: Seq<char>)
    ensures
        lookup_spec(a + b, term) == lookup_spec(a, term) + lookup_spec(b, term),
    decreases b.len(),
{
    if b.len() == 0 {
        assert(a + b =~= a);
        assert(lookup_spec(a, term) + lookup_spec(b, term) =~= lookup_spec(a, term));
    } else {
        lemma_lookup_concat(a, b.drop_last(), term);
        assert((a + b).drop_last() =~= a + b.drop_last());
        assert((a + b).last() == b.last());
        assert(lookup_spec(a, term) + lookup_spec(b, term) =~= lookup_spec(a + b, term));
    }
}

proof fn lemma_remove_id_member(d: Seq<EntryModel>, id: Seq<char>, e: EntryModel)
    requires
        remove_id(d, id).contains(e),
    ensures
        d.contains(e),
        e.id != id,
    decreases d.len(),
{
    if d.len() > 0 {
        let r = remove_id(d, id);
        let pre = remove_id(d.drop_last(), id);
        let k = choose|k: int| 0 <= k < r.len() && r[k] == e;
        if k < pre.len() {
            lemma_remove_id_member(d.drop_last(), id, e);
            let j = choose|j: int| 0 <= j < d.drop_last().len() && d.drop_last()[j] == e;
            assert(d[j] == e);
        } else {
            assert(e == d.last());
            assert(d[d.len() - 1] == e);
        }
    }
}

proof fn lemma_merge_member(base: Seq<EntryModel>, other: Seq<EntryModel>, e: EntryModel)
    requires
        merge_spec(base, other).contains(e),
    ensures
        base.contains(e) || other.contains(e),
    decreases other.len(),
{
    if other.len() > 0 {
        let m = merge_spec(base, other);
        let inner = merge_spec(base, other.drop_last());
        let k = choose|k: int| 0 <= k < m.len() && m[k] == e;
        if k < remove_id(inner, other.last().id).len() {
            lemma_remove_id_member(inner, other.last().id, e);
            lemma_merge_member(base, other.drop_last(), e);
            if other.drop_last().contains(e) {
                let j = choose|j: int|
                    0 <= j < other.drop_last().len() && other.drop_last()[j] == e;
                assert(other[j] == e);
            }
        } else {
            assert(e == other.last());
            assert(other[other.len() - 1] == e);
        }
    }
}

proof fn lemma_lookup_remove_id(d: Seq<EntryModel>, id: Seq<char>, term: Seq<char>)
    requires
        forall|k: int| 0 <= k < d.len() && d[k].matches(term) ==> d[k].id != id,
    ensures
        lookup_spec(remove_id(d, id), term) == lookup_spec(d, term),
    decreases d.len(),
{
    if d.len() > 0 {
        assert(forall|k: int|
            0 <= k < d.drop_last().len() && d.drop_last()[k].matches(term)
                ==> d.drop_last()[k].id != id) by {
            assert(forall|k: int|
                0 <= k < d.drop_last().len() ==> d.drop_last()[k] == d[k]);
        }
        lemma_lookup_remove_id(d.drop_last(), id, term);
        if d.last().id == id {
            assert(!d[d.len() - 1].matches(term));
            assert(remove_id(d, id) =~= remove_id(d.drop_last(), id));
            assert(lookup_spec(d, term) =~= lookup_spec(d.drop_last(), term));
        } else {
            lemma_lookup_concat(remove_id(d.drop_last(), id), seq![d.last()], term);
            assert(remove_id(d, id) == remove_id(d.drop_last(), id) + seq![d.last()]);
            let s = seq![d.last()];
            assert(s.drop_last() =~= Seq::<EntryModel>::empty());
            assert(lookup_spec(s, term) == lookup_spec(s.drop_last(), term) + (if s.last().matches(
                term,
            ) {
                seq![s.last()]
            } else {
                Seq::<EntryModel>::empty()
            }));
            assert(lookup_spec(remove_id(d, id), term) =~= lookup_spec(d, term));
        }
    }
}

/// Merging leaves unrelated lookups alone: when no entry of `other` is
/// reached by the term and no entry of `other` shares an identifier with a
/// `base` entry the term reaches, the merged store answers the term exactly
/// as `base` did.
pub proof fn lemma_merge_keeps_unrelated_lookup(
    base: Seq<EntryModel>,
    other: Seq<EntryModel>,
    term: Seq<char>,
)
    requires
        forall|j: int| 0 <= j < other.len() ==> !other[j].matches(term),
        forall|i: int, j: int|
            0 <= i < base.len() && 0 <= j < other.len() && base[i].matches(term) ==> base[i].id
                != other[j].id,
    ensures
        lookup_spec(merge_spec(base, other), term) == lookup_spec(base, term),
    decreases other.len(),
{
    if other.len() > 0 {
        let last = other.last();
        assert(forall|j: int|
            0 <= j < other.drop_last().len() ==> other.drop_last()[j] == other[j]);
        lemma_merge_keeps_unrelated_lookup(base, other.drop_last(), term);
        let inner = merge_spec(base, other.drop_last());
        assert(forall|k: int|
            0 <= k < inner.len() && inner[k].matches(term) ==> inner[k].id != last.id) by {
            assert forall|k: int|
                0 <= k < inner.len() && inner[k].matches(term) implies inner[k].id != last.id by {
                assert(inner.contains(inner[k]));
                lemma_merge_member(base, other.drop_last(), inner[k]);
                if other.drop_last().contains(inner[k]) {
                    let j = choose|j: int|
                        0 <= j < other.drop_last().len() && other.drop_last()[j] == inner[k];
                    assert(!other[j].matches(term));
                } else {
                    let i = choose|i: int| 0 <= i < base.len() && base[i] == inner[k];
                    assert(base[i].id != other[other.len() - 1].id);
                }
            }
        }
        lemma_lookup_remove_id(inner, last.id, term);
        lemma_lookup_concat(remove_id(inner, last.id), seq![last], term);
        let s = seq![last];
        let s0 = s.drop_last();
        assert(s0 =~= Seq::<EntryModel>::empty());
        assert(lookup_spec(s0, term) =~= Seq::<EntryModel>::empty());
        assert(!s.last().matches(term));
        assert(lookup_spec(s, term) =~= Seq::<EntryModel>::empty());
        assert(lookup_spec(merge_spec(base, other), term) =~= lookup_spec(base, term));
    }
}

proof fn lemma_keep_id_remove_id(d: Seq<EntryModel>, id: Seq<char>, id2: Seq<char>)
    ensures
        id == id2 ==> keep_id(remove_id(d, id2), id) == Seq::<EntryModel>::empty(),
        id != id2 ==> keep_id(remove_id(d, id2), id) == keep_id(d, id),
    decreases d.len(),
{
    if d.len() == 0 {
        assert(keep_id(remove_id(d, id2), id) =~= Seq::<EntryModel>::empty());
        assert(keep_id(d, id) =~= Seq::<EntryModel>::empty());
    } else {
        lemma_keep_id_remove_id(d.drop_last(), id, id2);
        if d.last().id == id2 {
            assert(remove_id(d, id2) =~= remove_id(d.drop_last(), id2));
        } else {
            let r = remove_id(d.drop_last(), id2) + seq![d.last()];
            assert(remove_id(d, id2) == r);
            assert(r.drop_last() =~= remove_id(d.drop_last(), id2));
            assert(r.last() == d.last());
            if id == id2 {
                assert(keep_id(r, id) =~= Seq::<EntryModel>::empty());
            } else {
                assert(keep_id(r, id) =~= keep_id(d, id));
            }
        }
    }
}

/// Merging makes `other` win on shared identifiers: after the merge, the
/// entries carrying the identifier of `other[j]` (with `j` its last
/// occurrence in `other`) are exactly `other[j]` itself, so the result
/// reflects `other`'s fields and not `base`'s.
pub proof fn lemma_merge_overrides(base: Seq<EntryModel>, other: Seq<EntryModel>, j: int)
    requires
        0 <= j < other.len(),
        forall|k: int| j < k < other.len() ==> other[k].id != other[j].id,
    ensures
        keep_id(merge_spec(base, other), other[j].id) == seq![other[j]],
    decreases other.len(),
{
    let id = other[j].id;
    let inner = merge_spec(base, other.drop_last());
    let m = merge_spec(base, other);
    assert(m == remove_id(inner, other.last().id) + seq![other.last()]);
    assert(m.drop_last() =~= remove_id(inner, other.last().id));
    assert(m.last() == other.last());
    if j == other.len() - 1 {
        lemma_keep_id_remove_id(inner, id, other.last().id);
        assert(keep_id(m, id) =~= seq![other[j]]);
    } else {
        assert(forall|k: int|
            0 <= k < other.drop_last().len() ==> other.drop_last()[k] == other[k]);
        lemma_merge_overrides(base, other.drop_last(), j);
        assert(other.last().id != id);
        lemma_keep_id_remove_id(inner, id, other.last().id);
        assert(keep_id(m, id) =~= keep_id(inner, id));
    }
}

proof fn lemma_keep_id_member(d: Seq<EntryModel>, id: Seq<char>, e: EntryModel)
    requires
        keep_id(d, id).contains(e),
    ensures
        d.contains(e),
    decreases d.len(),
{
    if d.len() > 0 {
        let r = keep_id(d, id);
        let pre = keep_id(d.drop_last(), id);
        let k = choose|k: int| 0 <= k < r.len() && r[k] == e;
        if k < pre.len() {
            lemma_keep_id_member(d.drop_last(), id, e);
            let j = choose|j: int| 0 <= j < d.drop_last().len() && d.drop_last()[j] == e;
            assert(d[j] == e);
        } else {
            assert(e == d.last());
            assert(d[d.len() - 1] == e);
        }
    }
}

/// After a merge, an entry of `other` that a term reaches is found by
/// looking that term up in the merged store: the overriding entry's own
/// fields answer the lookup.
pub proof fn lemma_merge_override_reaches_lookup(
    base: Seq<EntryModel>,
    other: Seq<EntryModel>,
    j: int,
    term: Seq<char>,
)
    requires
        0 <= j < other.len(),
        forall|k: int| j < k < other.len() ==> other[k].id != other[j].id,
        other[j].matches(term),
    ensures
        lookup_spec(merge_spec(base, other), term).contains(other[j]),
{
    lemma_merge_overrides(base, other, j);
    let m = merge_spec(base, other);
    let kept = keep_id(m, other[j].id);
    assert(kept[0] == other[j]);
    assert(kept.contains(other[j]));
    lemma_keep_id_member(m, other[j].id, other[j]);
    let i = choose|i: int| 0 <= i < m.len() && m[i] == other[j];
    lemma_lookup_contains(m, term, i);
}

/// Every loaded entry keeps at least one gloss: words without an English
/// gloss are dropped.
pub proof fn lemma_load_drops_glossless(ws: Seq<WordModel>)
    ensures
        forall|k: int| 0 <= k < load_spec(ws).len() ==> load_spec(ws)[k].meanings.len() > 0,
    decreases ws.len(),
{
    if ws.len() > 0 {
        lemma_load_drops_glossless(ws.drop_last());
        let l = load_spec(ws);
        let pre = load_spec(ws.drop_last());
        assert forall|k: int| 0 <= k < l.len() implies l[k].meanings.len() > 0 by {
            if k < pre.len() {
                assert(l[k] == pre[k]);
            } else {
                assert(l[k] == word_entry(ws.last()));
            }
        }
    }
}

/// A word whose senses carry no English gloss is absent from every lookup
/// after loading.
pub proof fn lemma_load_glossless_absent(ws: Seq<WordModel>, i: int, term: Seq<char>)
    requires
        0 <= i < ws.len(),
        eng_of_senses(ws[i].senses).len() == 0,
    ensures
        !lookup_spec(load_spec(ws), term).contains(word_entry(ws[i])),
{
    lemma_load_drops_glossless(ws);
    if lookup_spec(load_spec(ws), term).contains(word_entry(ws[i])) {
        lemma_lookup_member(load_spec(ws), term, word_entry(ws[i]));
        let k = choose|k: int|
            0 <= k < load_spec(ws).len() && load_spec(ws)[k] == word_entry(ws[i]);
        assert(load_spec(ws)[k].meanings.len() > 0);
    }
}

proof fn lemma_load_take_step(ws: Seq<WordModel>, i: int)
    requires
        0 <= i < ws.len(),
    ensures
        load_spec(ws.take(i + 1)) == load_spec(ws.take(i)) + (if eng_of_senses(
            ws[i].senses,
        ).len() > 0 {
            seq![word_entry(ws[i])]
        } else {
            Seq::<EntryModel>::empty()
        }),
{
    let t = ws.take(i + 1);
    assert(t.drop_last() =~= ws.take(i));
    assert(t.last() == ws[i]);
}

proof fn lemma_merge_take_step(base: Seq<EntryModel>, o: Seq<EntryModel>, k: int)
    requires
        0 <= k < o.len(),
    ensures
        merge_spec(base, o.take(k + 1)) == remove_id(merge_spec(base, o.take(k)), o[k].id)
            + seq![o[k]],
{
    let t = o.take(k + 1);
    assert(t.drop_last() =~= o.take(k));
    assert(t.last() == o[k]);
}

proof fn lemma_eng_glosses_take_step(gs: Seq<GlossModel>, j: int)
    requires
        0 <= j < gs.len(),
    ensures
        eng_of_glosses(gs.take(j + 1)) == eng_of_glosses(gs.take(j)) + (if gs[j].lang
            == eng_tag() {
            seq![gs[j].text]
        } else {
            Seq::<Seq<char>>::empty()
        }),
{
    let t = gs.take(j + 1);
    assert(t.drop_last() =~= gs.take(j));
    assert(t.last() == gs[j]);
}

proof fn lemma_senses_take_step(ss: Seq<SenseModel>, i: int)
    requires
        0 <= i < ss.len(),
    ensures
        eng_of_senses(ss.take(i + 1)) == eng_of_senses(ss.take(i)) + eng_of_glosses(
            ss[i].glosses,
        ),
        pos_of_senses(ss.take(i + 1)) == pos_of_senses(ss.take(i)) + ss[i].part_of_speech,
{
    let t = ss.take(i + 1);
    assert(t.drop_last() =~= ss.take(i));
    assert(t.last() == ss[i]);
}

/// Walk the sense groups of one word and collect its English gloss texts
/// and its part-of-speech tags, each in order.
fn extract_senses(senses: &Vec<RawSense>) -> (r: (Vec<String>, Vec<String>))
    ensures
        r.0.deep_view() == eng_of_senses(senses.deep_view()),
        r.1.deep_view() == pos_of_senses(senses.deep_view()),
{
    let ghost ss = senses.deep_view();
    let mut meanings: Vec<String> = Vec::new();
    let mut pos: Vec<String> = Vec::new();
    let mut i: usize = 0;
    while i < senses.len()
        invariant
            i <= senses.len(),
            ss == senses.deep_view(),
            meanings.deep_view() =~= eng_of_senses(ss.take(i as int)),
            pos.deep_view() =~= pos_of_senses(ss.take(i as int)),
        decreases senses.len() - i,
    {
        let s = &senses[i];
        assert(s.deep_view() == ss[i as int]);
        proof {
            lemma_senses_take_step(ss, i as int);
        }
        let ghost gs = s.glosses.deep_view();
        let mut j: usize = 0;
        while j < s.glosses.len()
            invariant
                j <= s.glosses.len(),
                gs == s.glosses.deep_view(),
                meanings.deep_view() =~= eng_of_senses(ss.take(i as int)) + eng_of_glosses(
                    gs.take(j as int),
                ),
            decreases s.glosses.len() - j,
        {
            let g = &s.glosses[j];
            assert(g.deep_view() == gs[j as int]);
            proof {
                lemma_eng_glosses_take_step(gs, j as int);
                reveal_strlit("eng");
                assert("eng"@ =~= eng_tag());
            }
            if str_eq(g.lang.as_str(), "eng") {
                let ghost pre = meanings.deep_view();
                meanings.push(g.text.clone());
                proof {
                    assert(meanings.deep_view() =~= pre.push(gs[j as int].text));
                }
            }
            j += 1;
        }
        proof {
            assert(gs.take(gs.len() as int) =~= gs);
        }
        let ghost ps = s.part_of_speech.deep_view();
        let mut j2: usize = 0;
        while j2 < s.part_of_speech.len()
            invariant
                j2 <= s.part_of_speech.len(),
                ps == s.part_of_speech.deep_view(),
                pos.deep_view() =~= pos_of_senses(ss.take(i as int)) + ps.take(j2 as int),
            decreases s.part_of_speech.len() - j2,
        {
            let tag = s.part_of_speech[j2].clone();
            assert(tag@ == ps[j2 as int]);
            let ghost pre = pos.deep_view();
            pos.push(tag);
            proof {
                assert(pos.deep_view() =~= pre.push(ps[j2 as int]));
                assert(ps.take(j2 + 1) =~= ps.take(j2 as int).push(ps[j2 as int]));
            }
            j2 += 1;
        }
        proof {
            assert(ps.take(ps.len() as int) =~= ps);
        }
        i += 1;
    }
    proof {
        assert(ss.take(ss.len() as int) =~= ss);
    }
    (meanings, pos)
}

/// Drop every entry carrying the identifier, keeping the others in order.
fn remove_id_exec(v: Vec<JMdictEntry>, id: &str) -> (r: Vec<JMdictEntry>)
    ensures
        r.deep_view() == remove_id(v.deep_view(), id@),
{
    let ghost d = v.deep_view();
    let mut out: Vec<JMdictEntry> = Vec::new();
    let mut i: usize = 0;
    while i < v.len()
        invariant
            i <= v.len(),
            d == v.deep_view(),
            out.deep_view() =~= remove_id(d.take(i as int), id@),
        decreases v.len() - i,
    {
        let e = &v[i];
        assert(e.deep_view() == d[i as int]);
        proof {
            let t = d.take(i + 1);
            assert(t.drop_last() =~= d.take(i as int));
            assert(t.last() == d[i as int]);
        }
        if !str_eq(e.id.as_str(), id) {
            out.push(clone_entry(e));
        }
        i += 1;
    }
    proof {
        assert(d.take(d.len() as int) =~= d);
    }
    out
}

} // verus!
