//! The proficiency-level provider: a read-only table from word to one of
//! five ordered levels (N5 easiest through N1 hardest), with display,
//! description and badge renderings.

use crate::strutil::{str_eq, tbl_get};
use crate::tsv::{parse_tsv, tsv_records};
use vstd::prelude::*;

verus! {

/// One of the five proficiency levels, easiest first.
#[derive(Debug, Clone, Copy, PartialEq, Eq, PartialOrd, Ord)]
pub enum JlptLevel {
    N5,
    N4,
    N3,
    N2,
    N1,
}

impl DeepView for JlptLevel {
    type V = JlptLevel;

    open spec fn deep_view(&self) -> JlptLevel {
        *self
    }
}

/// What parsing a level tag yields: the five tags, upper or lower case.
pub open spec fn jlpt_parse_spec(s: Seq<char>) -> Option<JlptLevel> {
    if s == "N5"@ || s == "n5"@ {
        Some(JlptLevel::N5)
    } else if s == "N4"@ || s == "n4"@ {
        Some(JlptLevel::N4)
    } else if s == "N3"@ || s == "n3"@ {
        Some(JlptLevel::N3)
    } else if s == "N2"@ || s == "n2"@ {
        Some(JlptLevel::N2)
    } else if s == "N1"@ || s == "n1"@ {
        Some(JlptLevel::N1)
    } else {
        None
    }
}

/// The plain tag of a level.
pub open spec fn jlpt_str_spec(l: JlptLevel) -> Seq<char> {
    match l {
        JlptLevel::N5 => "N5"@,
        JlptLevel::N4 => "N4"@,
        JlptLevel::N3 => "N3"@,
        JlptLevel::N2 => "N2"@,
        JlptLevel::N1 => "N1"@,
    }
}

/// The long description of a level.
pub open spec fn jlpt_description_spec(l: JlptLevel) -> Seq<char> {
    match l {
        JlptLevel::N5 => "N5 (Beginner)"@,
        JlptLevel::N4 => "N4 (Elementary)"@,
        JlptLevel::N3 => "N3 (Intermediate)"@,
        JlptLevel::N2 => "N2 (Upper Intermediate)"@,
        JlptLevel::N1 => "N1 (Advanced)"@,
    }
}

/// The colored badge of a level.
pub open spec fn jlpt_badge_spec(l: JlptLevel) -> Seq<char> {
    match l {
        JlptLevel::N5 => "\u{1F7E2} N5"@,
        JlptLevel::N4 => "\u{1F7E1} N4"@,
        JlptLevel::N3 => "\u{1F7E0} N3"@,
        JlptLevel::N2 => "\u{1F534} N2"@,
        JlptLevel::N1 => "\u{1F7E3} N1"@,
    }
}

impl JlptLevel {
    /// Parse a level tag, upper or lower case; any other text yields
    /// nothing.
    pub fn from_str(s: &str) -> (r: Option<JlptLevel>)
        ensures
            r == jlpt_parse_spec(s@),
    {
        if str_eq(s, "N5") || str_eq(s, "n5") {
            Some(JlptLevel::N5)
        } else if str_eq(s, "N4") || str_eq(s, "n4") {
            Some(JlptLevel::N4)
        } else if str_eq(s, "N3") || str_eq(s, "n3") {
            Some(JlptLevel::N3)
        } else if str_eq(s, "N2") || str_eq(s, "n2") {
            Some(JlptLevel::N2)
        } else if str_eq(s, "N1") || str_eq(s, "n1") {
            Some(JlptLevel::N1)
        } else {
            None
        }
    }

    /// The plain tag of the level.
    pub fn as_str(&self) -> (r: &'static str)
        ensures
            r@ == jlpt_str_spec(*self),
    {
        match self {
            JlptLevel::N5 => "N5",
            JlptLevel::N4 => "N4",
            JlptLevel::N3 => "N3",
            JlptLevel::N2 => "N2",
            JlptLevel::N1 => "N1",
        }
    }

    /// The long description of the level.
    pub fn description(&self) -> (r: &'static str)
        ensures
            r@ == jlpt_description_spec(*self),
    {
        match self {
            JlptLevel::N5 => "N5 (Beginner)",
            JlptLevel::N4 => "N4 (Elementary)",
            JlptLevel::N3 => "N3 (Intermediate)",
            JlptLevel::N2 => "N2 (Upper Intermediate)",
            JlptLevel::N1 => "N1 (Advanced)",
        }
    }

    /// The colored badge of the level.
    pub fn badge(&self) -> (r: String)
        ensures
            r@ == jlpt_badge_spec(*self),
    {
        match self {
            JlptLevel::N5 => String::from_str("\u{1F7E2} N5"),
            JlptLevel::N4 => String::from_str("\u{1F7E1} N4"),
            JlptLevel::N3 => String::from_str("\u{1F7E0} N3"),
            JlptLevel::N2 => String::from_str("\u{1F534} N2"),
            JlptLevel::N1 => String::from_str("\u{1F7E3} N1"),
        }
    }
}

/// The embedded default table of common words and their levels.
pub open spec fn default_jlpt_words() -> Seq<(Seq<char>, JlptLevel)> {
    seq![
        ("の"@, JlptLevel::N5),
        ("に"@, JlptLevel::N5),
        ("は"@, JlptLevel::N5),
        ("を"@, JlptLevel::N5),
        ("です"@, JlptLevel::N5),
        ("ます"@, JlptLevel::N5),
        ("でした"@, JlptLevel::N5),
        ("ました"@, JlptLevel::N5),
        ("日本"@, JlptLevel::N5),
        ("人"@, JlptLevel::N5),
        ("本"@, JlptLevel::N5),
        ("先生"@, JlptLevel::N5),
        ("学生"@, JlptLevel::N5),
        ("学校"@, JlptLevel::N5),
        ("時間"@, JlptLevel::N5),
        ("今"@, JlptLevel::N5),
        ("明日"@, JlptLevel::N5),
        ("昨日"@, JlptLevel::N5),
        ("食べる"@, JlptLevel::N5),
        ("飲む"@, JlptLevel::N5),
        ("見る"@, JlptLevel::N5),
        ("聞く"@, JlptLevel::N5),
        ("話す"@, JlptLevel::N5),
        ("読む"@, JlptLevel::N5),
        ("書く"@, JlptLevel::N5),
        ("行く"@, JlptLevel::N5),
        ("来る"@, JlptLevel::N5),
        ("大きい"@, JlptLevel::N5),
        ("小さい"@, JlptLevel::N5),
        ("高い"@, JlptLevel::N5),
        ("安い"@, JlptLevel::N5),
        ("良い"@, JlptLevel::N5),
        ("悪い"@, JlptLevel::N5),
        ("新しい"@, JlptLevel::N5),
        ("古い"@, JlptLevel::N5),
        ("一"@, JlptLevel::N5),
        ("二"@, JlptLevel::N5),
        ("三"@, JlptLevel::N5),
        ("四"@, JlptLevel::N5),
        ("五"@, JlptLevel::N5),
        ("六"@, JlptLevel::N5),
        ("七"@, JlptLevel::N5),
        ("八"@, JlptLevel::N5),
        ("九"@, JlptLevel::N5),
        ("十"@, JlptLevel::N5),
        ("考える"@, JlptLevel::N4),
        ("思う"@, JlptLevel::N4),
        ("分かる"@, JlptLevel::N4),
        ("知る"@, JlptLevel::N4),
        ("教える"@, JlptLevel::N4),
        ("習う"@, JlptLevel::N4),
        ("始める"@, JlptLevel::N4),
        ("終わる"@, JlptLevel::N4),
        ("働く"@, JlptLevel::N4),
        ("勉強"@, JlptLevel::N4),
        ("仕事"@, JlptLevel::N4),
        ("会社"@, JlptLevel::N4),
        ("時計"@, JlptLevel::N4),
        ("電話"@, JlptLevel::N4),
        ("手紙"@, JlptLevel::N4),
        ("映画"@, JlptLevel::N4),
        ("強い"@, JlptLevel::N4),
        ("弱い"@, JlptLevel::N4),
        ("優しい"@, JlptLevel::N4),
        ("厳しい"@, JlptLevel::N4),
        ("美しい"@, JlptLevel::N4),
        ("汚い"@, JlptLevel::N4),
        ("便利"@, JlptLevel::N4),
        ("不便"@, JlptLevel::N4),
        ("経験"@, JlptLevel::N3),
        ("研究"@, JlptLevel::N3),
        ("発見"@, JlptLevel::N3),
        ("意見"@, JlptLevel::N3),
        ("説明"@, JlptLevel::N3),
        ("計画"@, JlptLevel::N3),
        ("準備"@, JlptLevel::N3),
        ("確認"@, JlptLevel::N3),
        ("複雑"@, JlptLevel::N3),
        ("簡単"@, JlptLevel::N3),
        ("正確"@, JlptLevel::N3),
        ("曖昧"@, JlptLevel::N3),
        ("適切"@, JlptLevel::N3),
        ("不適切"@, JlptLevel::N3),
        ("重視"@, JlptLevel::N3),
        ("軽視"@, JlptLevel::N3),
    ]
}

/// The records of a level table file: every `word<TAB>level` record whose
/// level parses as a level tag, in order.
pub open spec fn jlpt_records(rs: Seq<(Seq<char>, Seq<char>)>) -> Seq<(Seq<char>, JlptLevel)>
    decreases rs.len(),
{
    if rs.len() == 0 {
        Seq::empty()
    } else {
        jlpt_records(rs.drop_last()) + (match jlpt_parse_spec(rs.last().1) {
            Some(l) => seq![(rs.last().0, l)],
            None => Seq::<(Seq<char>, JlptLevel)>::empty(),
        })
    }
}

/// The word-to-level table.  Its value is the sequence of records in
/// insertion order; a later record overrides an earlier one.
pub struct JlptLevels {
    levels: Vec<(String, JlptLevel)>,
}

impl View for JlptLevels {
    type V = Seq<(Seq<char>, JlptLevel)>;

    closed spec fn view(&self) -> Seq<(Seq<char>, JlptLevel)> {
        self.levels.deep_view()
    }
}

impl JlptLevels {
    /// The empty table.
    pub fn new() -> (t: JlptLevels)
        ensures
            t@ =~= Seq::<(Seq<char>, JlptLevel)>::empty(),
    {
        JlptLevels { levels: Vec::new() }
    }

    /// The embedded default table of common words.
    #[verifier::rlimit(100)]
    pub fn with_defaults() -> (t: JlptLevels)
        ensures
            t@ == default_jlpt_words(),
    {
        let levels: Vec<(String, JlptLevel)> = vec![
            (String::from_str("の"), JlptLevel::N5),
            (String::from_str("に"), JlptLevel::N5),
            (String::from_str("は"), JlptLevel::N5),
            (String::from_str("を"), JlptLevel::N5),
            (String::from_str("です"), JlptLevel::N5),
            (String::from_str("ます"), JlptLevel::N5),
            (String::from_str("でした"), JlptLevel::N5),
            (String::from_str("ました"), JlptLevel::N5),
            (String::from_str("日本"), JlptLevel::N5),
            (String::from_str("人"), JlptLevel::N5),
            (String::from_str("本"), JlptLevel::N5),
            (String::from_str("先生"), JlptLevel::N5),
            (String::from_str("学生"), JlptLevel::N5),
            (String::from_str("学校"), JlptLevel::N5),
            (String::from_str("時間"), JlptLevel::N5),
            (String::from_str("今"), JlptLevel::N5),
            (String::from_str("明日"), JlptLevel::N5),
            (String::from_str("昨日"), JlptLevel::N5),
            (String::from_str("食べる"), JlptLevel::N5),
            (String::from_str("飲む"), JlptLevel::N5),
            (String::from_str("見る"), JlptLevel::N5),
            (String::from_str("聞く"), JlptLevel::N5),
            (String::from_str("話す"), JlptLevel::N5),
            (String::from_str("読む"), JlptLevel::N5),
            (String::from_str("書く"), JlptLevel::N5),
            (String::from_str("行く"), JlptLevel::N5),
            (String::from_str("来る"), JlptLevel::N5),
            (String::from_str("大きい"), JlptLevel::N5),
            (String::from_str("小さい"), JlptLevel::N5),
            (String::from_str("高い"), JlptLevel::N5),
            (String::from_str("安い"), JlptLevel::N5),
            (String::from_str("良い"), JlptLevel::N5),
            (String::from_str("悪い"), JlptLevel::N5),
            (String::from_str("新しい"), JlptLevel::N5),
            (String::from_str("古い"), JlptLevel::N5),
            (String::from_str("一"), JlptLevel::N5),
            (String::from_str("二"), JlptLevel::N5),
            (String::from_str("三"), JlptLevel::N5),
            (String::from_str("四"), JlptLevel::N5),
            (String::from_str("五"), JlptLevel::N5),
            (String::from_str("六"), JlptLevel::N5),
            (String::from_str("七"), JlptLevel::N5),
            (String::from_str("八"), JlptLevel::N5),
            (String::from_str("九"), JlptLevel::N5),
            (String::from_str("十"), JlptLevel::N5),
            (String::from_str("考える"), JlptLevel::N4),
            (String::from_str("思う"), JlptLevel::N4),
            (String::from_str("分かる"), JlptLevel::N4),
            (String::from_str("知る"), JlptLevel::N4),
            (String::from_str("教える"), JlptLevel::N4),
            (String::from_str("習う"), JlptLevel::N4),
            (String::from_str("始める"), JlptLevel::N4),
            (String::from_str("終わる"), JlptLevel::N4),
            (String::from_str("働く"), JlptLevel::N4),
            (String::from_str("勉強"), JlptLevel::N4),
            (String::from_str("仕事"), JlptLevel::N4),
            (String::from_str("会社"), JlptLevel::N4),
            (String::from_str("時計"), JlptLevel::N4),
            (String::from_str("電話"), JlptLevel::N4),
            (String::from_str("手紙"), JlptLevel::N4),
            (String::from_str("映画"), JlptLevel::N4),
            (String::from_str("強い"), JlptLevel::N4),
            (String::from_str("弱い"), JlptLevel::N4),
            (String::from_str("優しい"), JlptLevel::N4),
            (String::from_str("厳しい"), JlptLevel::N4),
            (String::from_str("美しい"), JlptLevel::N4),
            (String::from_str("汚い"), JlptLevel::N4),
            (String::from_str("便利"), JlptLevel::N4),
            (String::from_str("不便"), JlptLevel::N4),
            (String::from_str("経験"), JlptLevel::N3),
            (String::from_str("研究"), JlptLevel::N3),
            (String::from_str("発見"), JlptLevel::N3),
            (String::from_str("意見"), JlptLevel::N3),
            (String::from_str("説明"), JlptLevel::N3),
            (String::from_str("計画"), JlptLevel::N3),
            (String::from_str("準備"), JlptLevel::N3),
            (String::from_str("確認"), JlptLevel::N3),
            (String::from_str("複雑"), JlptLevel::N3),
            (String::from_str("簡単"), JlptLevel::N3),
            (String::from_str("正確"), JlptLevel::N3),
            (String::from_str("曖昧"), JlptLevel::N3),
            (String::from_str("適切"), JlptLevel::N3),
            (String::from_str("不適切"), JlptLevel::N3),
            (String::from_str("重視"), JlptLevel::N3),
            (String::from_str("軽視"), JlptLevel::N3),
        ];
        proof {
            assert(levels.deep_view() =~= default_jlpt_words());
        }
        JlptLevels { levels }
    }

    /// The table read from `word<TAB>level` text: records whose level does
    /// not parse are skipped, not fatal.
    pub fn from_tsv(content: &str) -> (t: JlptLevels)
        ensures
            t@ == jlpt_records(tsv_records(content@)),
    {
        let records = parse_tsv(content);
        let ghost rs = records.deep_view();
        let mut levels: Vec<(String, JlptLevel)> = Vec::new();
        let mut i: usize = 0;
        while i < records.len()
            invariant
                i <= records.len(),
                rs == records.deep_view(),
                levels.deep_view() =~= jlpt_records(rs.take(i as int)),
            decreases records.len() - i,
        {
            let kv = &records[i];
            assert(kv.deep_view() == rs[i as int]);
            proof {
                let tk = rs.take(i + 1);
                assert(tk.drop_last() =~= rs.take(i as int));
                assert(tk.last() == rs[i as int]);
            }
            if let Some(l) = JlptLevel::from_str(kv.1.as_str()) {
                levels.push((kv.0.clone(), l));
            }
            i += 1;
        }
        proof {
            assert(rs.take(rs.len() as int) =~= rs);
        }
        JlptLevels { levels }
    }

    /// The level of the word, when the table has it.
    pub fn get_level(&self, word: &str) -> (r: Option<JlptLevel>)
        ensures
            r == tbl_get(self@, word@),
    {
        let ghost m = self@;
        let mut i = self.levels.len();
        proof {
            assert(m.take(self.levels.len() as int) =~= m);
        }
        while i > 0
            invariant
                i <= self.levels.len(),
                m == self@,
                m.len() == self.levels.len(),
                tbl_get(m, word@) == tbl_get(m.take(i as int), word@),
            decreases i,
        {
            i = i - 1;
            let pair = &self.levels[i];
            assert(pair.deep_view() == m[i as int]);
            proof {
                let tk = m.take(i + 1);
                assert(tk.drop_last() =~= m.take(i as int));
                assert(tk.last() == m[i as int]);
            }
            if str_eq(pair.0.as_str(), word) {
                return Some(pair.1);
            }
        }
        proof {
            assert(m.take(0).len() == 0);
        }
        None
    }

    /// The level tag of the word, when the table has it.
    pub fn get_level_str(&self, word: &str) -> (r: Option<&'static str>)
        ensures
            match r {
                Some(s) => tbl_get(self@, word@) is Some && s@ == jlpt_str_spec(
                    tbl_get(self@, word@)->0,
                ),
                None => tbl_get(self@, word@) is None,
            },
    {
        match self.get_level(word) {
            Some(l) => Some(l.as_str()),
            None => None,
        }
    }

    /// The level badge of the word, when the table has it.
    pub fn get_badge(&self, word: &str) -> (r: Option<String>)
        ensures
            match r {
                Some(s) => tbl_get(self@, word@) is Some && s@ == jlpt_badge_spec(
                    tbl_get(self@, word@)->0,
                ),
                None => tbl_get(self@, word@) is None,
            },
    {
        match self.get_level(word) {
            Some(l) => Some(l.badge()),
            None => None,
        }
    }
}

} // verus!
