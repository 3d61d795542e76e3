//! The pitch-accent provider: a read-only table from word to the pitch
//! drop position, classified into a pattern type by fixed thresholds
//! (0 is flat, 1 is head-high, 2 and above is mid-high) and rendered to a
//! short notation string.  The classification does not distinguish
//! mid-high from tail-high; the tail-high variant exists but is never
//! produced from a drop position.

use crate::strutil::{dec_str, parse_u8, parse_u8_spec, str_eq, tbl_get, u8_to_string};
use crate::tsv::{parse_tsv, tsv_records};
use vstd::prelude::*;

verus! {

/// The four pattern types of Japanese pitch accent.
#[derive(Debug, Clone, Copy, PartialEq, Eq)]
pub enum PatternType {
    Heiban,
    Atamadaka,
    Nakadaka,
    Odaka,
}

/// The display name of a pattern type.
pub open spec fn pattern_type_str_spec(t: PatternType) -> Seq<char> {
    match t {
        PatternType::Heiban => "Heiban (Flat)"@,
        PatternType::Atamadaka => "Atamadaka (Head-high)"@,
        PatternType::Nakadaka => "Nakadaka (Mid-high)"@,
        PatternType::Odaka => "Odaka (Tail-high)"@,
    }
}

impl PatternType {
    /// The display name of the pattern type.
    pub fn as_str(&self) -> (r: &'static str)
        ensures
            r@ == pattern_type_str_spec(*self),
    {
        match self {
            PatternType::Heiban => "Heiban (Flat)",
            PatternType::Atamadaka => "Atamadaka (Head-high)",
            PatternType::Nakadaka => "Nakadaka (Mid-high)",
            PatternType::Odaka => "Odaka (Tail-high)",
        }
    }
}

/// One pitch pattern: the drop position and its classified type.
#[derive(Debug, Clone)]
pub struct PitchPattern {
    pub drop_position: u8,
    pub pattern_type: PatternType,
}

impl DeepView for PitchPattern {
    type V = PitchPattern;

    open spec fn deep_view(&self) -> PitchPattern {
        *self
    }
}

/// The pattern a drop position classifies to: 0 is flat, 1 is head-high,
/// anything above is mid-high.
pub open spec fn pattern_spec(drop: u8) -> PitchPattern {
    PitchPattern {
        drop_position: drop,
        pattern_type: if drop == 0 {
            PatternType::Heiban
        } else if drop == 1 {
            PatternType::Atamadaka
        } else {
            PatternType::Nakadaka
        },
    }
}

/// The notation string of a pattern.
pub open spec fn notation_spec(p: PitchPattern) -> Seq<char> {
    match p.pattern_type {
        PatternType::Heiban => "\u{25CE}"@,
        PatternType::Atamadaka => "\u{2460}"@,
        PatternType::Nakadaka => "\u{24EA}"@ + dec_str(p.drop_position as nat),
        PatternType::Odaka => "\u{24EA}"@,
    }
}

impl PitchPattern {
    /// Classify a drop position.
    pub fn from_drop_position(drop: u8) -> (p: PitchPattern)
        ensures
            p == pattern_spec(drop),
    {
        let pattern_type = if drop == 0 {
            PatternType::Heiban
        } else if drop == 1 {
            PatternType::Atamadaka
        } else {
            PatternType::Nakadaka
        };
        PitchPattern { drop_position: drop, pattern_type }
    }

    /// The notation string of the pattern.
    pub fn to_notation(&self) -> (r: String)
        ensures
            r@ == notation_spec(*self),
    {
        match self.pattern_type {
            PatternType::Heiban => String::from_str("\u{25CE}"),
            PatternType::Atamadaka => String::from_str("\u{2460}"),
            PatternType::Nakadaka => String::from_str("\u{24EA}").concat(
                u8_to_string(self.drop_position).as_str(),
            ),
            PatternType::Odaka => String::from_str("\u{24EA}"),
        }
    }

    /// The display name of the pattern's type.
    pub fn pattern_name(&self) -> (r: &'static str)
        ensures
            r@ == pattern_type_str_spec(self.pattern_type),
    {
        self.pattern_type.as_str()
    }
}

/// The embedded default table: common words and their drop positions.
pub open spec fn default_pitch_words() -> Seq<(Seq<char>, PitchPattern)> {
    seq![
        ("\u{65E5}\u{672C}"@, pattern_spec(0)),
        ("\u{6771}\u{4EAC}"@, pattern_spec(0)),
        ("\u{5B66}\u{6821}"@, pattern_spec(0)),
        ("\u{5148}\u{751F}"@, pattern_spec(3)),
        ("\u{5B66}\u{751F}"@, pattern_spec(0)),
        ("\u{6642}\u{9593}"@, pattern_spec(0)),
        ("\u{672C}"@, pattern_spec(1)),
        ("\u{6C34}"@, pattern_spec(0)),
        ("\u{5C71}"@, pattern_spec(0)),
        ("\u{5DDD}"@, pattern_spec(0)),
    ]
}

/// The records of a pitch table file: every `word<TAB>drop` record whose
/// drop position parses as a byte, in order.
pub open spec fn pitch_records(rs: Seq<(Seq<char>, Seq<char>)>) -> Seq<(Seq<char>, PitchPattern)>
    decreases rs.len(),
{
    if rs.len() == 0 {
        Seq::empty()
    } else {
        pitch_records(rs.drop_last()) + (match parse_u8_spec(rs.last().1) {
            Some(d) => seq![(rs.last().0, pattern_spec(d))],
            None => Seq::<(Seq<char>, PitchPattern)>::empty(),
        })
    }
}

/// The word-to-pattern table.  Its value is the sequence of records in
/// insertion order; a later record overrides an earlier one.
pub struct JapanesePitchAccent {
    accents: Vec<(String, PitchPattern)>,
}

impl View for JapanesePitchAccent {
    type V = Seq<(Seq<char>, PitchPattern)>;

    closed spec fn view(&self) -> Seq<(Seq<char>, PitchPattern)> {
        self.accents.deep_view()
    }
}

impl JapanesePitchAccent {
    /// The empty table.
    pub fn new() -> (t: JapanesePitchAccent)
        ensures
            t@ =~= Seq::<(Seq<char>, PitchPattern)>::empty(),
    {
        JapanesePitchAccent { accents: Vec::new() }
    }

    /// The embedded default table of common word patterns.
    pub fn with_defaults() -> (t: JapanesePitchAccent)
        ensures
            t@ == default_pitch_words(),
    {
        let accents: Vec<(String, PitchPattern)> = vec![
            (String::from_str("\u{65E5}\u{672C}"), PitchPattern::from_drop_position(0)),
            (String::from_str("\u{6771}\u{4EAC}"), PitchPattern::from_drop_position(0)),
            (String::from_str("\u{5B66}\u{6821}"), PitchPattern::from_drop_position(0)),
            (String::from_str("\u{5148}\u{751F}"), PitchPattern::from_drop_position(3)),
            (String::from_str("\u{5B66}\u{751F}"), PitchPattern::from_drop_position(0)),
            (String::from_str("\u{6642}\u{9593}"), PitchPattern::from_drop_position(0)),
            (String::from_str("\u{672C}"), PitchPattern::from_drop_position(1)),
            (String::from_str("\u{6C34}"), PitchPattern::from_drop_position(0)),
            (String::from_str("\u{5C71}"), PitchPattern::from_drop_position(0)),
            (String::from_str("\u{5DDD}"), PitchPattern::from_drop_position(0)),
        ];
        proof {
            assert(accents.deep_view() =~= default_pitch_words());
        }
        JapanesePitchAccent { accents }
    }

    /// The table read from `word<TAB>drop` text: records whose drop
    /// position does not parse are skipped, not fatal.
    pub fn from_tsv(content: &str) -> (t: JapanesePitchAccent)
        ensures
            t@ == pitch_records(tsv_records(content@)),
    {
        let records = parse_tsv(content);
        let ghost rs = records.deep_view();
        let mut accents: Vec<(String, PitchPattern)> = Vec::new();
        let mut i: usize = 0;
        while i < records.len()
            invariant
                i <= records.len(),
                rs == records.deep_view(),
                accents.deep_view() =~= pitch_records(rs.take(i as int)),
            decreases records.len() - i,
        {
            let kv = &records[i];
            assert(kv.deep_view() == rs[i as int]);
            proof {
                let tk = rs.take(i + 1);
                assert(tk.drop_last() =~= rs.take(i as int));
                assert(tk.last() == rs[i as int]);
            }
            if let Some(d) = parse_u8(kv.1.as_str()) {
                accents.push((kv.0.clone(), PitchPattern::from_drop_position(d)));
            }
            i += 1;
        }
        proof {
            assert(rs.take(rs.len() as int) =~= rs);
        }
        JapanesePitchAccent { accents }
    }

    /// The pattern of the word, when the table has it.
    pub fn get_pattern(&self, word: &str) -> (r: Option<PitchPattern>)
        ensures
            r == tbl_get(self@, word@),
    {
        let ghost m = self@;
        let mut i = self.accents.len();
        proof {
            assert(m.take(self.accents.len() as int) =~= m);
        }
        while i > 0
            invariant
                i <= self.accents.len(),
                m == self@,
                m.len() == self.accents.len(),
                tbl_get(m, word@) == tbl_get(m.take(i as int), word@),
            decreases i,
        {
            i = i - 1;
            let pair = &self.accents[i];
            assert(pair.deep_view() == m[i as int]);
            proof {
                let tk = m.take(i + 1);
                assert(tk.drop_last() =~= m.take(i as int));
                assert(tk.last() == m[i as int]);
            }
            if str_eq(pair.0.as_str(), word) {
                return Some(
                    PitchPattern {
                        drop_position: pair.1.drop_position,
                        pattern_type: pair.1.pattern_type,
                    },
                );
            }
        }
        proof {
            assert(m.take(0).len() == 0);
        }
        None
    }

    /// The notation string of the word's pattern, when the table has it.
    pub fn get_notation(&self, word: &str) -> (r: Option<String>)
        ensures
            match r {
                Some(s) => tbl_get(self@, word@) is Some && s@ == notation_spec(
                    tbl_get(self@, word@)->0,
                ),
                None => tbl_get(self@, word@) is None,
            },
    {
        match self.get_pattern(word) {
            Some(p) => Some(p.to_notation()),
            None => None,
        }
    }
}

} // verus!
