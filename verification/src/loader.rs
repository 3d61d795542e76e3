//! Loading of the built-in dictionary and merging of stores.

use crate::dictionary::{
    load_spec, merge_spec, EntryModel, JMdict, LoadError, RawGloss, RawSense, RawWord, WordModel,
};
use vstd::prelude::*;

verus! {

/// One embedded word record.
pub open spec fn embedded_word(
    id: Seq<char>,
    kanji: Seq<Seq<char>>,
    kana: Seq<char>,
    pos: Seq<char>,
    gloss: Seq<char>,
) -> WordModel {
    WordModel {
        id: id,
        kanji: kanji,
        kana: seq![kana],
        senses: seq![
            crate::dictionary::SenseModel {
                part_of_speech: seq![pos],
                glosses: seq![crate::dictionary::GlossModel { lang: "eng"@, text: gloss }],
            },
        ],
    }
}

/// The embedded dataset: a small built-in vocabulary that keeps the engine
/// useful with no external file.
pub open spec fn embedded_words() -> Seq<WordModel> {
    seq![
        embedded_word("1358280"@, seq!["食べる"@], "たべる"@, "v1"@, "to eat"@),
        embedded_word("1577100"@, seq!["書く"@], "かく"@, "v5k"@, "to write"@),
        embedded_word("1456360"@, seq!["読む"@], "よむ"@, "v5m"@, "to read"@),
        embedded_word("1547720"@, seq!["来る"@], "くる"@, "vk"@, "to come"@),
        embedded_word("1157170"@, Seq::<Seq<char>>::empty(), "する"@, "vs-i"@, "to do"@),
        embedded_word("1283190"@, seq!["高い"@], "たかい"@, "adj-i"@, "high; expensive"@),
        embedded_word("1582710"@, seq!["日本"@], "にほん"@, "n"@, "Japan"@),
        embedded_word("1206900"@, seq!["学校"@], "がっこう"@, "n"@, "school"@),
        embedded_word("1371870"@, seq!["水"@], "みず"@, "n"@, "water"@),
        embedded_word("1259290"@, seq!["見る"@], "みる"@, "v1"@, "to see"@),
        embedded_word("1563080"@, seq!["話す"@], "はなす"@, "v5s"@, "to speak"@),
        embedded_word("1591110"@, seq!["聞く"@], "きく"@, "v5k"@, "to hear; to listen"@),
    ]
}

fn one_word(id: &str, kanji: Option<&str>, kana: &str, pos: &str, gloss: &str) -> (w: RawWord)
    ensures
        w@ == embedded_word(
            id@,
            match kanji {
                Some(k) => seq![k@],
                None => Seq::<Seq<char>>::empty(),
            },
            kana@,
            pos@,
            gloss@,
        ),
{
    let kanji_vec: Vec<String> = match kanji {
        Some(k) => vec![String::from_str(k)],
        None => Vec::new(),
    };
    let w = RawWord {
        id: String::from_str(id),
        kanji: kanji_vec,
        kana: vec![String::from_str(kana)],
        senses: vec![
            RawSense {
                part_of_speech: vec![String::from_str(pos)],
                glosses: vec![RawGloss { lang: String::from_str("eng"), text: String::from_str(gloss) }],
            },
        ],
    };
    proof {
        assert(w@ =~~= embedded_word(
            id@,
            match kanji {
                Some(k) => seq![k@],
                None => Seq::<Seq<char>>::empty(),
            },
            kana@,
            pos@,
            gloss@,
        ));
    }
    w
}

pub struct JMdictLoader;

impl JMdictLoader {
    /// The built-in dictionary.  Loading embedded data cannot fail, so the
    /// result is always the store of the embedded dataset.
    pub fn load_embedded() -> (r: Result<JMdict, LoadError>)
        ensures
            match r {
                Ok(d) => d@ == load_spec(embedded_words()),
                Err(_) => false,
            },
    {
        let words: Vec<RawWord> = vec![
            one_word("1358280", Some("食べる"), "たべる", "v1", "to eat"),
            one_word("1577100", Some("書く"), "かく", "v5k", "to write"),
            one_word("1456360", Some("読む"), "よむ", "v5m", "to read"),
            one_word("1547720", Some("来る"), "くる", "vk", "to come"),
            one_word("1157170", None, "する", "vs-i", "to do"),
            one_word("1283190", Some("高い"), "たかい", "adj-i", "high; expensive"),
            one_word("1582710", Some("日本"), "にほん", "n", "Japan"),
            one_word("1206900", Some("学校"), "がっこう", "n", "school"),
            one_word("1371870", Some("水"), "みず", "n", "water"),
            one_word("1259290", Some("見る"), "みる", "v1", "to see"),
            one_word("1563080", Some("話す"), "はなす", "v5s", "to speak"),
            one_word("1591110", Some("聞く"), "きく", "v5k", "to hear; to listen"),
        ];
        proof {
            assert(words.deep_view() =~~= embedded_words());
        }
        Ok(JMdict::load(&words))
    }

    /// Merge two stores: entries of `additional` override entries of
    /// `base` sharing their identifier.
    pub fn merge(base: JMdict, additional: JMdict) -> (d: JMdict)
        ensures
            d@ == merge_spec(base@, additional@),
    {
        base.merge(additional)
    }
}

} // verus!
