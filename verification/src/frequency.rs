//! The frequency provider: a read-only table from word to numeric rank
//! (lower means more common), with derived level and star-rating views by
//! fixed rank thresholds.

use crate::strutil::{parse_u32, parse_u32_spec, str_eq, tbl_get};
use crate::tsv::{parse_tsv, tsv_records};
use vstd::prelude::*;

verus! {

/// The coarse frequency bucket of a word.
#[derive(Debug, Clone, Copy, PartialEq, Eq)]
pub enum FrequencyLevel {
    VeryCommon,
    Common,
    Uncommon,
    Rare,
    Unknown,
}

/// The bucket a rank falls in: absent words are unknown.
pub open spec fn level_spec(rank: Option<u32>) -> FrequencyLevel {
    match rank {
        Some(r) => if r <= 1000 {
            FrequencyLevel::VeryCommon
        } else if r <= 5000 {
            FrequencyLevel::Common
        } else if r <= 10000 {
            FrequencyLevel::Uncommon
        } else {
            FrequencyLevel::Rare
        },
        None => FrequencyLevel::Unknown,
    }
}

/// The 0-5 star rating of a rank: absent words score zero.
pub open spec fn stars_spec(rank: Option<u32>) -> u8 {
    match rank {
        Some(r) => if r <= 500 {
            5
        } else if r <= 2000 {
            4
        } else if r <= 5000 {
            3
        } else if r <= 10000 {
            2
        } else {
            1
        },
        None => 0,
    }
}

/// The display name of a level.
pub open spec fn level_str_spec(l: FrequencyLevel) -> Seq<char> {
    match l {
        FrequencyLevel::VeryCommon => "Very Common"@,
        FrequencyLevel::Common => "Common"@,
        FrequencyLevel::Uncommon => "Uncommon"@,
        FrequencyLevel::Rare => "Rare"@,
        FrequencyLevel::Unknown => "Unknown"@,
    }
}

/// The star glyphs of a level.
pub open spec fn level_emoji_spec(l: FrequencyLevel) -> Seq<char> {
    match l {
        FrequencyLevel::VeryCommon => "★★★★★"@,
        FrequencyLevel::Common => "★★★★"@,
        FrequencyLevel::Uncommon => "★★★"@,
        FrequencyLevel::Rare => "★★"@,
        FrequencyLevel::Unknown => ""@,
    }
}

impl FrequencyLevel {
    /// The display name of the level.
    pub fn as_str(&self) -> (r: &'static str)
        ensures
            r@ == level_str_spec(*self),
    {
        match self {
            FrequencyLevel::VeryCommon => "Very Common",
            FrequencyLevel::Common => "Common",
            FrequencyLevel::Uncommon => "Uncommon",
            FrequencyLevel::Rare => "Rare",
            FrequencyLevel::Unknown => "Unknown",
        }
    }

    /// The star glyphs of the level.
    pub fn emoji(&self) -> (r: &'static str)
        ensures
            r@ == level_emoji_spec(*self),
    {
        match self {
            FrequencyLevel::VeryCommon => "★★★★★",
            FrequencyLevel::Common => "★★★★",
            FrequencyLevel::Uncommon => "★★★",
            FrequencyLevel::Rare => "★★",
            FrequencyLevel::Unknown => "",
        }
    }
}

/// The embedded default table: common words with approximate rankings.
pub open spec fn default_frequencies() -> Seq<(Seq<char>, u32)> {
    seq![("の"@, 1u32), ("に"@, 2u32), ("は"@, 3u32), ("を"@, 4u32), ("た"@, 5u32), ("が"@, 6u32), ("で"@, 7u32), ("て"@, 8u32), ("と"@, 9u32), ("し"@, 10u32), ("れ"@, 11u32), ("さ"@, 12u32), ("ある"@, 13u32), ("いる"@, 14u32), ("も"@, 15u32), ("する"@, 16u32), ("から"@, 17u32), ("な"@, 18u32), ("こ"@, 19u32), ("として"@, 20u32), ("い"@, 21u32), ("や"@, 22u32), ("れる"@, 23u32), ("など"@, 24u32), ("なっ"@, 25u32), ("ない"@, 26u32), ("この"@, 27u32), ("ため"@, 28u32), ("その"@, 29u32), ("あっ"@, 30u32), ("よう"@, 31u32), ("また"@, 32u32), ("もの"@, 33u32), ("という"@, 34u32), ("あり"@, 35u32), ("まで"@, 36u32), ("られ"@, 37u32), ("なる"@, 38u32), ("へ"@, 39u32), ("か"@, 40u32), ("だ"@, 41u32), ("これ"@, 42u32), ("によって"@, 43u32), ("により"@, 44u32), ("おり"@, 45u32), ("より"@, 46u32), ("による"@, 47u32), ("ず"@, 48u32), ("なり"@, 49u32), ("られる"@, 50u32), ("において"@, 51u32), ("ば"@, 52u32), ("なかっ"@, 53u32), ("なく"@, 54u32), ("しかし"@, 55u32), ("について"@, 56u32), ("せ"@, 57u32), ("だっ"@, 58u32), ("その後"@, 59u32), ("できる"@, 60u32), ("それ"@, 61u32), ("う"@, 62u32), ("ので"@, 63u32), ("なお"@, 64u32), ("のみ"@, 65u32), ("でき"@, 66u32), ("日本"@, 67u32), ("思う"@, 68u32), ("それぞれ"@, 69u32), ("とき"@, 70u32), ("ほか"@, 71u32), ("行う"@, 72u32), ("考える"@, 73u32), ("示す"@, 74u32), ("用いる"@, 75u32), ("言う"@, 76u32), ("大きい"@, 77u32), ("多い"@, 78u32), ("新しい"@, 79u32), ("良い"@, 80u32), ("高い"@, 81u32), ("長い"@, 82u32), ("強い"@, 83u32), ("少ない"@, 84u32), ("古い"@, 85u32), ("見る"@, 86u32), ("来る"@, 87u32), ("持つ"@, 88u32), ("使う"@, 89u32), ("出る"@, 90u32), ("取る"@, 91u32), ("分かる"@, 92u32), ("行く"@, 93u32), ("入る"@, 94u32), ("作る"@, 95u32), ("聞く"@, 96u32), ("話す"@, 97u32), ("読む"@, 98u32), ("書く"@, 99u32), ("食べる"@, 100u32)]
}

/// The records of a frequency table file: every `word<TAB>rank` record
/// whose rank parses as a decimal number, in order.
pub open spec fn freq_records(rs: Seq<(Seq<char>, Seq<char>)>) -> Seq<(Seq<char>, u32)>
    decreases rs.len(),
{
    if rs.len() == 0 {
        Seq::empty()
    } else {
        freq_records(rs.drop_last()) + (match parse_u32_spec(rs.last().1) {
            Some(v) => seq![(rs.last().0, v)],
            None => Seq::<(Seq<char>, u32)>::empty(),
        })
    }
}

/// The word-to-rank table.  Its value is the sequence of records in
/// insertion order; a later record overrides an earlier one.
pub struct JapaneseFrequency {
    frequencies: Vec<(String, u32)>,
}

impl View for JapaneseFrequency {
    type V = Seq<(Seq<char>, u32)>;

    closed spec fn view(&self) -> Seq<(Seq<char>, u32)> {
        self.frequencies.deep_view()
    }
}

impl JapaneseFrequency {
    /// The empty table.
    pub fn new() -> (f: JapaneseFrequency)
        ensures
            f@ =~= Seq::<(Seq<char>, u32)>::empty(),
    {
        JapaneseFrequency { frequencies: Vec::new() }
    }

    /// The embedded default table of common words.
    #[verifier::rlimit(100)]
    pub fn with_defaults() -> (f: JapaneseFrequency)
        ensures
            f@ == default_frequencies(),
    {
        let t: Vec<(String, u32)> = vec![
            (String::from_str("の"), 1),
            (String::from_str("に"), 2),
            (String::from_str("は"), 3),
            (String::from_str("を"), 4),
            (String::from_str("た"), 5),
            (String::from_str("が"), 6),
            (String::from_str("で"), 7),
            (String::from_str("て"), 8),
            (String::from_str("と"), 9),
            (String::from_str("し"), 10),
            (String::from_str("れ"), 11),
            (String::from_str("さ"), 12),
            (String::from_str("ある"), 13),
            (String::from_str("いる"), 14),
            (String::from_str("も"), 15),
            (String::from_str("する"), 16),
            (String::from_str("から"), 17),
            (String::from_str("な"), 18),
            (String::from_str("こ"), 19),
            (String::from_str("として"), 20),
            (String::from_str("い"), 21),
            (String::from_str("や"), 22),
            (String::from_str("れる"), 23),
            (String::from_str("など"), 24),
            (String::from_str("なっ"), 25),
            (String::from_str("ない"), 26),
            (String::from_str("この"), 27),
            (String::from_str("ため"), 28),
            (String::from_str("その"), 29),
            (String::from_str("あっ"), 30),
            (String::from_str("よう"), 31),
            (String::from_str("また"), 32),
            (String::from_str("もの"), 33),
            (String::from_str("という"), 34),
            (String::from_str("あり"), 35),
            (String::from_str("まで"), 36),
            (String::from_str("られ"), 37),
            (String::from_str("なる"), 38),
            (String::from_str("へ"), 39),
            (String::from_str("か"), 40),
            (String::from_str("だ"), 41),
            (String::from_str("これ"), 42),
            (String::from_str("によって"), 43),
            (String::from_str("により"), 44),
            (String::from_str("おり"), 45),
            (String::from_str("より"), 46),
            (String::from_str("による"), 47),
            (String::from_str("ず"), 48),
            (String::from_str("なり"), 49),
            (String::from_str("られる"), 50),
            (String::from_str("において"), 51),
            (String::from_str("ば"), 52),
            (String::from_str("なかっ"), 53),
            (String::from_str("なく"), 54),
            (String::from_str("しかし"), 55),
            (String::from_str("について"), 56),
            (String::from_str("せ"), 57),
            (String::from_str("だっ"), 58),
            (String::from_str("その後"), 59),
            (String::from_str("できる"), 60),
            (String::from_str("それ"), 61),
            (String::from_str("う"), 62),
            (String::from_str("ので"), 63),
            (String::from_str("なお"), 64),
            (String::from_str("のみ"), 65),
            (String::from_str("でき"), 66),
            (String::from_str("日本"), 67),
            (String::from_str("思う"), 68),
            (String::from_str("それぞれ"), 69),
            (String::from_str("とき"), 70),
            (String::from_str("ほか"), 71),
            (String::from_str("行う"), 72),
            (String::from_str("考える"), 73),
            (String::from_str("示す"), 74),
            (String::from_str("用いる"), 75),
            (String::from_str("言う"), 76),
            (String::from_str("大きい"), 77),
            (String::from_str("多い"), 78),
            (String::from_str("新しい"), 79),
            (String::from_str("良い"), 80),
            (String::from_str("高い"), 81),
            (String::from_str("長い"), 82),
            (String::from_str("強い"), 83),
            (String::from_str("少ない"), 84),
            (String::from_str("古い"), 85),
            (String::from_str("見る"), 86),
            (String::from_str("来る"), 87),
            (String::from_str("持つ"), 88),
            (String::from_str("使う"), 89),
            (String::from_str("出る"), 90),
            (String::from_str("取る"), 91),
            (String::from_str("分かる"), 92),
            (String::from_str("行く"), 93),
            (String::from_str("入る"), 94),
            (String::from_str("作る"), 95),
            (String::from_str("聞く"), 96),
            (String::from_str("話す"), 97),
            (String::from_str("読む"), 98),
            (String::from_str("書く"), 99),
            (String::from_str("食べる"), 100),
        ];
        proof {
            assert(t.deep_view() =~= default_frequencies());
        }
        JapaneseFrequency { frequencies: t }
    }

    /// The table read from `word<TAB>rank` text: records whose rank does
    /// not parse are skipped, not fatal.
    pub fn from_tsv(content: &str) -> (f: JapaneseFrequency)
        ensures
            f@ == freq_records(tsv_records(content@)),
    {
        let records = parse_tsv(content);
        let ghost rs = records.deep_view();
        let mut t: Vec<(String, u32)> = Vec::new();
        let mut i: usize = 0;
        while i < records.len()
            invariant
                i <= records.len(),
                rs == records.deep_view(),
                t.deep_view() =~= freq_records(rs.take(i as int)),
            decreases records.len() - i,
        {
            let kv = &records[i];
            assert(kv.deep_view() == rs[i as int]);
            proof {
                let tk = rs.take(i + 1);
                assert(tk.drop_last() =~= rs.take(i as int));
                assert(tk.last() == rs[i as int]);
            }
            if let Some(v) = parse_u32(kv.1.as_str()) {
                t.push((kv.0.clone(), v));
            }
            i += 1;
        }
        proof {
            assert(rs.take(rs.len() as int) =~= rs);
        }
        JapaneseFrequency { frequencies: t }
    }

    /// The rank of the word, when the table has it.
    pub fn get_rank(&self, word: &str) -> (r: Option<u32>)
        ensures
            r == tbl_get(self@, word@),
    {
        let ghost m = self@;
        let mut i = self.frequencies.len();
        proof {
            assert(m.take(self.frequencies.len() as int) =~= m);
        }
        while i > 0
            invariant
                i <= self.frequencies.len(),
                m == self@,
                m.len() == self.frequencies.len(),
                tbl_get(m, word@) == tbl_get(m.take(i as int), word@),
            decreases i,
        {
            i = i - 1;
            let pair = &self.frequencies[i];
            assert(pair.deep_view() == m[i as int]);
            proof {
                let tk = m.take(i + 1);
                assert(tk.drop_last() =~= m.take(i as int));
                assert(tk.last() == m[i as int]);
            }
            if str_eq(pair.0.as_str(), word) {
                return Some(pair.1);
            }
        }
        proof {
            assert(m.take(0).len() == 0);
        }
        None
    }

    /// The coarse frequency bucket of the word.
    pub fn get_level(&self, word: &str) -> (r: FrequencyLevel)
        ensures
            r == level_spec(tbl_get(self@, word@)),
    {
        match self.get_rank(word) {
            Some(rank) => if rank <= 1000 {
                FrequencyLevel::VeryCommon
            } else if rank <= 5000 {
                FrequencyLevel::Common
            } else if rank <= 10000 {
                FrequencyLevel::Uncommon
            } else {
                FrequencyLevel::Rare
            },
            None => FrequencyLevel::Unknown,
        }
    }

    /// The 0-5 star rating of the word; a word the table lacks scores zero.
    pub fn get_stars(&self, word: &str) -> (r: u8)
        ensures
            r == stars_spec(tbl_get(self@, word@)),
    {
        match self.get_rank(word) {
            Some(rank) => if rank <= 500 {
                5
            } else if rank <= 2000 {
                4
            } else if rank <= 5000 {
                3
            } else if rank <= 10000 {
                2
            } else {
                1
            },
            None => 0,
        }
    }
}

} // verus!
