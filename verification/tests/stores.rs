//! Tests of the dictionary store and the enrichment providers.

use saya::dictionary::{JMdict, LoadError, RawGloss, RawSense, RawWord};
use saya::frequency::{FrequencyLevel, JapaneseFrequency};
use saya::jlpt::{JlptLevel, JlptLevels};
use saya::pitch_accent::{JapanesePitchAccent, PatternType, PitchPattern};

fn word(id: &str, kanji: &[&str], kana: &[&str], glosses: &[(&str, &str)]) -> RawWord {
    RawWord {
        id: id.to_string(),
        kanji: kanji.iter().map(|s| s.to_string()).collect(),
        kana: kana.iter().map(|s| s.to_string()).collect(),
        senses: vec![RawSense {
            part_of_speech: vec!["v1".to_string()],
            glosses: glosses
                .iter()
                .map(|(lang, text)| RawGloss {
                    lang: lang.to_string(),
                    text: text.to_string(),
                })
                .collect(),
        }],
    }
}

#[test]
fn load_keeps_english_glosses_only() {
    let d = JMdict::load(&vec![word(
        "1",
        &["食べる"],
        &["たべる"],
        &[("eng", "to eat"), ("ger", "essen")],
    )]);
    assert_eq!(d.entry_count(), 1);
    let hits = d.lookup_exact("食べる");
    assert_eq!(hits.len(), 1);
    assert_eq!(hits[0].meanings, vec!["to eat".to_string()]);
}

#[test]
fn load_drops_entry_without_target_language_gloss() {
    let d = JMdict::load(&vec![
        word("1", &["食べる"], &["たべる"], &[("ger", "essen")]),
        word("2", &["書く"], &["かく"], &[("eng", "to write")]),
    ]);
    assert_eq!(d.entry_count(), 1);
    assert!(d.lookup_exact("食べる").is_empty());
    assert!(d.lookup_exact("たべる").is_empty());
    assert_eq!(d.lookup_exact("書く").len(), 1);
}

#[test]
fn lookup_reaches_entry_by_headword_and_reading() {
    let d = JMdict::load(&vec![word("1", &["見る"], &["みる"], &[("eng", "to see")])]);
    assert_eq!(d.lookup_exact("見る").len(), 1);
    assert_eq!(d.lookup_exact("みる").len(), 1);
    assert!(d.lookup_exact("みない").is_empty());
}

#[test]
fn lookup_deduplicates_when_headword_equals_reading() {
    // A kana-only word is reachable as spelling and reading without
    // appearing twice.
    let d = JMdict::load(&vec![word("1", &["する"], &["する"], &[("eng", "to do")])]);
    assert_eq!(d.lookup_exact("する").len(), 1);
}

#[test]
fn get_by_id_finds_entry() {
    let d = JMdict::load(&vec![
        word("10", &["水"], &["みず"], &[("eng", "water")]),
        word("20", &["山"], &["やま"], &[("eng", "mountain")]),
    ]);
    let e = d.get_by_id("20").expect("entry 20");
    assert_eq!(e.headword(), "山");
    assert!(d.get_by_id("30").is_none());
}

#[test]
fn merge_overrides_by_identifier_and_keeps_the_rest() {
    let a = JMdict::load(&vec![
        word("1", &["水"], &["みず"], &[("eng", "water")]),
        word("2", &["山"], &["やま"], &[("eng", "mountain")]),
    ]);
    let b = JMdict::load(&vec![
        word("2", &["山"], &["やま"], &[("eng", "peak")]),
        word("3", &["川"], &["かわ"], &[("eng", "river")]),
    ]);
    let merged = a.merge(b);
    assert_eq!(merged.entry_count(), 3);
    // A term present only in the base store is unaffected.
    let water = merged.lookup_exact("水");
    assert_eq!(water.len(), 1);
    assert_eq!(water[0].meanings, vec!["water".to_string()]);
    // A shared identifier reflects the other store's fields.
    let peak = merged.lookup_exact("山");
    assert_eq!(peak.len(), 1);
    assert_eq!(peak[0].meanings, vec!["peak".to_string()]);
    assert_eq!(
        merged.get_by_id("2").expect("entry 2").meanings,
        vec!["peak".to_string()]
    );
    assert_eq!(merged.lookup_exact("川").len(), 1);
}

#[test]
fn load_error_messages() {
    assert_eq!(
        LoadError::FileNotFound("dict.json".to_string()).message(),
        "File not found: dict.json"
    );
    assert_eq!(
        LoadError::ParseError("bad".to_string()).message(),
        "Parse error: bad"
    );
}

#[test]
fn frequency_stars_by_thresholds() {
    let f = JapaneseFrequency::from_tsv("の\t1\nまた\t501\nよく\t2001\nたま\t5001\nまれ\t10001");
    assert_eq!(f.get_stars("の"), 5);
    assert_eq!(f.get_stars("また"), 4);
    assert_eq!(f.get_stars("よく"), 3);
    assert_eq!(f.get_stars("たま"), 2);
    assert_eq!(f.get_stars("まれ"), 1);
    assert_eq!(f.get_stars("ない"), 0);
}

#[test]
fn frequency_levels_by_thresholds() {
    let f = JapaneseFrequency::from_tsv("a\t1000\nb\t1001\nc\t5000\nd\t10000\ne\t10001");
    assert_eq!(f.get_level("a"), FrequencyLevel::VeryCommon);
    assert_eq!(f.get_level("b"), FrequencyLevel::Common);
    assert_eq!(f.get_level("c"), FrequencyLevel::Common);
    assert_eq!(f.get_level("d"), FrequencyLevel::Uncommon);
    assert_eq!(f.get_level("e"), FrequencyLevel::Rare);
    assert_eq!(f.get_level("zzz"), FrequencyLevel::Unknown);
    assert_eq!(f.get_level("zzz").as_str(), "Unknown");
    assert_eq!(f.get_level("a").as_str(), "Very Common");
    assert_eq!(f.get_level("a").emoji(), "★★★★★");
}

#[test]
fn frequency_tsv_skips_malformed_lines() {
    let f = JapaneseFrequency::from_tsv("good\t5\nno tab here\nbad\tnotanumber\ntoobig\t4294967296\nmax\t4294967295\r\n");
    assert_eq!(f.get_rank("good"), Some(5));
    assert_eq!(f.get_rank("no tab here"), None);
    assert_eq!(f.get_rank("bad"), None);
    assert_eq!(f.get_rank("toobig"), None);
    assert_eq!(f.get_rank("max"), Some(u32::MAX));
}

#[test]
fn frequency_later_record_overrides_earlier() {
    let f = JapaneseFrequency::from_tsv("word\t10\nword\t9000");
    assert_eq!(f.get_rank("word"), Some(9000));
}

#[test]
fn frequency_defaults_know_common_words() {
    let f = JapaneseFrequency::with_defaults();
    assert_eq!(f.get_rank("の"), Some(1));
    assert_eq!(f.get_rank("食べる"), Some(100));
    assert_eq!(f.get_stars("の"), 5);
    assert!(f.get_rank("存在しない語").is_none());
    assert_eq!(JapaneseFrequency::new().get_rank("の"), None);
}

#[test]
fn jlpt_parses_levels_case_insensitively() {
    assert_eq!(JlptLevel::from_str("N5"), Some(JlptLevel::N5));
    assert_eq!(JlptLevel::from_str("n2"), Some(JlptLevel::N2));
    assert_eq!(JlptLevel::from_str("N6"), None);
    assert_eq!(JlptLevel::from_str(""), None);
}

#[test]
fn jlpt_renderings() {
    assert_eq!(JlptLevel::N5.as_str(), "N5");
    assert_eq!(JlptLevel::N3.description(), "N3 (Intermediate)");
    assert_eq!(JlptLevel::N5.badge(), "\u{1F7E2} N5");
    assert_eq!(JlptLevel::N1.badge(), "\u{1F7E3} N1");
}

#[test]
fn jlpt_table_lookups() {
    let t = JlptLevels::from_tsv("言葉\tN4\nほか\tbogus\n試験\tn1");
    assert_eq!(t.get_level("言葉"), Some(JlptLevel::N4));
    assert_eq!(t.get_level("ほか"), None);
    assert_eq!(t.get_level_str("試験"), Some("N1"));
    assert_eq!(t.get_badge("言葉"), Some("\u{1F7E1} N4".to_string()));
    assert_eq!(t.get_badge("ない"), None);
    let d = JlptLevels::with_defaults();
    assert_eq!(d.get_level("食べる"), Some(JlptLevel::N5));
    assert_eq!(d.get_level("経験"), Some(JlptLevel::N3));
}

#[test]
fn pitch_patterns_classify_by_drop_position() {
    let flat = PitchPattern::from_drop_position(0);
    assert_eq!(flat.pattern_type, PatternType::Heiban);
    assert_eq!(flat.to_notation(), "\u{25CE}");
    let head = PitchPattern::from_drop_position(1);
    assert_eq!(head.pattern_type, PatternType::Atamadaka);
    assert_eq!(head.to_notation(), "\u{2460}");
    let mid = PitchPattern::from_drop_position(3);
    assert_eq!(mid.pattern_type, PatternType::Nakadaka);
    assert_eq!(mid.to_notation(), "\u{24EA}3");
    let wide = PitchPattern::from_drop_position(213);
    assert_eq!(wide.to_notation(), "\u{24EA}213");
    assert_eq!(mid.pattern_name(), "Nakadaka (Mid-high)");
    assert_eq!(PatternType::Odaka.as_str(), "Odaka (Tail-high)");
}

#[test]
fn pitch_table_lookups() {
    let t = JapanesePitchAccent::from_tsv("言葉\t3\nほか\tx\nつき\t300\nもり\t2");
    assert_eq!(t.get_notation("言葉"), Some("\u{24EA}3".to_string()));
    assert!(t.get_pattern("ほか").is_none());
    // 300 does not fit a byte, so the record is skipped.
    assert!(t.get_pattern("つき").is_none());
    assert_eq!(t.get_pattern("もり").unwrap().drop_position, 2);
}

#[test]
fn pitch_defaults_know_common_words() {
    let t = JapanesePitchAccent::with_defaults();
    assert_eq!(t.get_notation("日本"), Some("\u{25CE}".to_string()));
    assert_eq!(t.get_notation("本"), Some("\u{2460}".to_string()));
    assert_eq!(t.get_notation("先生"), Some("\u{24EA}3".to_string()));
    assert!(t.get_notation("ない").is_none());
}
