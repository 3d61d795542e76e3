//! Tests of the normalizer, the span generator and the deconjugator.

use saya::deconjugator::{DeconjugationResult, JapaneseDeconjugator};
use saya::normalize::normalize;
use saya::processor::JapaneseProcessor;

fn has_candidate(results: &[DeconjugationResult], base: &str, kind: &str) -> bool {
    results
        .iter()
        .any(|r| r.base_form == base && r.conjugation_type.contains(kind))
}

#[test]
fn normalize_empty_is_empty() {
    assert_eq!(normalize(""), "");
}

#[test]
fn normalize_folds_fullwidth_to_ascii() {
    assert_eq!(normalize("\u{FF28}\u{FF45}\u{FF4C}\u{FF4C}\u{FF4F}"), "Hello");
}

#[test]
fn normalize_strips_line_breaks_keeps_spaces() {
    assert_eq!(normalize("a\nb\tc d\r\n"), "abc d");
}

#[test]
fn normalize_is_idempotent_on_ordinary_text() {
    let samples = ["", "  hello\nworld  ", "食べて みた", "ＡＢＣ\u{3000}def"];
    for s in samples {
        let once = normalize(s);
        assert_eq!(normalize(&once), once);
    }
}

#[test]
fn tokenize_counts_all_bounded_spans() {
    let p = JapaneseProcessor::new();
    // Five characters: 5 + 4 + 3 + 2 + 1 spans.
    let tokens = p.tokenize("食べてみた");
    assert_eq!(tokens.len(), 15);
    // Twelve characters: min(10, 12 - i) summed is 10 + 10 + 10 + 9 + ... + 1.
    let tokens = p.tokenize("abcdefghijkl");
    assert_eq!(tokens.len(), 75);
    assert_eq!(p.tokenize("").len(), 0);
}

#[test]
fn tokenize_emits_longest_first_per_offset() {
    let p = JapaneseProcessor::new();
    let tokens = p.tokenize("abc");
    let pairs: Vec<(usize, String)> = tokens
        .iter()
        .map(|t| (t.position, t.surface.clone()))
        .collect();
    assert_eq!(
        pairs,
        vec![
            (0, "abc".to_string()),
            (0, "ab".to_string()),
            (0, "a".to_string()),
            (1, "bc".to_string()),
            (1, "b".to_string()),
            (2, "c".to_string()),
        ]
    );
    for t in &tokens {
        assert_eq!(t.surface, t.normalized);
    }
}

#[test]
fn deconjugate_te_form_ichidan() {
    let d = JapaneseDeconjugator::new();
    let results = d.deconjugate("食べて");
    assert!(has_candidate(&results, "食べる", "te-form"));
}

#[test]
fn deconjugate_masu_form_godan() {
    let d = JapaneseDeconjugator::new();
    let results = d.deconjugate("書きます");
    assert!(has_candidate(&results, "書く", "masu-form"));
}

#[test]
fn deconjugate_negative_irregular_kuru() {
    let d = JapaneseDeconjugator::new();
    let results = d.deconjugate("来ない");
    assert!(results
        .iter()
        .any(|r| r.base_form == "来る" && r.confidence == 80));
}

#[test]
fn deconjugate_i_adjective_negative() {
    let d = JapaneseDeconjugator::new();
    let results = d.deconjugate("高くない");
    assert!(has_candidate(&results, "高い", "i-adjective, negative"));
}

#[test]
fn deconjugate_tte_ambiguity_yields_three_godan_candidates() {
    let d = JapaneseDeconjugator::new();
    let results = d.deconjugate("待って");
    assert!(has_candidate(&results, "待う", "godan"));
    assert!(has_candidate(&results, "待つ", "godan"));
    assert!(has_candidate(&results, "待る", "godan"));
    for r in &results {
        if r.base_form == "待つ" {
            assert_eq!(r.confidence, 60);
        }
    }
}

#[test]
fn deconjugate_shite_matches_irregular_suru_exactly() {
    let d = JapaneseDeconjugator::new();
    let results = d.deconjugate("して");
    assert!(results
        .iter()
        .any(|r| r.base_form == "する" && r.confidence == 100));
}

#[test]
fn deconjugate_ta_form_rewrites_to_te_form() {
    let d = JapaneseDeconjugator::new();
    let results = d.deconjugate("書いた");
    assert!(has_candidate(&results, "書く", "godan verb, te-form"));
}

#[test]
fn deconjugate_continuous_tags_labels() {
    let d = JapaneseDeconjugator::new();
    let results = d.deconjugate("食べている");
    assert!(results
        .iter()
        .any(|r| r.base_form == "食べる" && r.conjugation_type.ends_with(", continuous")));
}

#[test]
fn deconjugate_plain_word_has_no_te_candidates() {
    let d = JapaneseDeconjugator::new();
    let results = d.deconjugate("日本");
    assert!(results.is_empty());
}

#[test]
fn preprocessor_trims_folds_and_removes_breaks() {
    let p = saya::preprocess::DefaultPreprocessor;
    assert_eq!(p.process(""), "");
    assert_eq!(p.process(" \r\n\t "), "");
    assert_eq!(p.process("  hello\nworld  "), "helloworld");
    assert_eq!(p.process("a b"), "a b");
    assert_eq!(p.process("\u{FF21}\u{FF22}\r\n"), "AB");
}
