//! End-to-end tests of the lookup orchestrator, and tests of the card
//! templates and configuration records.

use saya::cards::CardTemplate;
use saya::config::anki::AnkiConfig;
use saya::config::network::NetworkConfig;
use saya::config::Config;
use saya::dictionary::{JMdict, RawGloss, RawSense, RawWord};
use saya::processor::{JapaneseProcessor, Token};
use saya::types::{OcrStatus, UiState};

fn token(text: &str) -> Token {
    Token {
        surface: text.to_string(),
        normalized: text.to_string(),
        position: 0,
    }
}

fn extra_dict() -> JMdict {
    JMdict::load(&vec![RawWord {
        id: "9000001".to_string(),
        kanji: vec!["竜胆".to_string()],
        kana: vec!["りんどう".to_string()],
        senses: vec![RawSense {
            part_of_speech: vec!["n".to_string()],
            glosses: vec![RawGloss {
                lang: "eng".to_string(),
                text: "gentian".to_string(),
            }],
        }],
    }])
}

#[test]
fn lookup_direct_hit_is_enriched() {
    let p = JapaneseProcessor::new();
    let results = p.lookup(&token("日本"));
    assert_eq!(results.len(), 1);
    let r = &results[0];
    assert_eq!(r.term, "日本");
    assert_eq!(r.readings, vec!["にほん".to_string()]);
    assert_eq!(r.definitions, vec!["Japan".to_string()]);
    // Rank 67 in the default table: five stars, very common.
    assert_eq!(r.metadata.frequency_rank, Some("67".to_string()));
    assert_eq!(r.metadata.frequency_level, Some("Very Common".to_string()));
    assert_eq!(
        r.metadata.frequency_stars,
        Some("\u{2605}\u{2605}\u{2605}\u{2605}\u{2605}".to_string())
    );
    assert_eq!(r.metadata.pitch_accent, Some("\u{25CE}".to_string()));
    assert_eq!(r.metadata.jlpt_level, Some("\u{1F7E2} N5".to_string()));
    assert!(r.metadata.conjugation.is_none());
    assert!(r.metadata.base_form.is_none());
}

#[test]
fn lookup_deconjugates_when_direct_lookup_misses() {
    let p = JapaneseProcessor::new();
    let results = p.lookup(&token("食べて"));
    assert!(!results.is_empty());
    let r = &results[0];
    assert_eq!(r.term, "食べる");
    let conj = r.metadata.conjugation.as_ref().expect("conjugation chain");
    assert!(conj.contains("食べて"));
    assert!(conj.contains("食べる"));
    assert_eq!(r.metadata.base_form, Some("食べる".to_string()));
}

#[test]
fn lookup_miss_is_empty_not_an_error() {
    let p = JapaneseProcessor::new();
    assert!(p.lookup(&token("ぱぴぷぺぽ")).is_empty());
}

#[test]
fn lookup_word_absent_from_frequency_table_gets_no_stars() {
    let p = JapaneseProcessor::with_additional_dicts(vec![extra_dict()]);
    let results = p.lookup(&token("竜胆"));
    assert_eq!(results.len(), 1);
    let r = &results[0];
    assert_eq!(r.term, "竜胆");
    assert!(r.metadata.frequency_stars.is_none());
    assert!(r.metadata.frequency_rank.is_none());
    // The coarse level is always attached, as unknown here.
    assert_eq!(r.metadata.frequency_level, Some("Unknown".to_string()));
    assert!(r.metadata.pitch_accent.is_none());
    assert!(r.metadata.jlpt_level.is_none());
}

#[test]
fn additional_dictionary_overrides_by_identifier() {
    let override_dict = JMdict::load(&vec![RawWord {
        id: "1582710".to_string(), // the embedded identifier of 日本
        kanji: vec!["日本".to_string()],
        kana: vec!["にっぽん".to_string()],
        senses: vec![RawSense {
            part_of_speech: vec!["n".to_string()],
            glosses: vec![RawGloss {
                lang: "eng".to_string(),
                text: "Japan (override)".to_string(),
            }],
        }],
    }]);
    let p = JapaneseProcessor::with_additional_dicts(vec![override_dict]);
    let results = p.lookup(&token("日本"));
    assert_eq!(results.len(), 1);
    assert_eq!(results[0].definitions, vec!["Japan (override)".to_string()]);
    assert_eq!(results[0].readings, vec!["にっぽん".to_string()]);
}

#[test]
fn language_code_is_japanese() {
    assert_eq!(JapaneseProcessor::new().language_code(), "ja");
}

#[test]
fn card_template_fills_placeholders() {
    let t = CardTemplate::default_japanese();
    assert_eq!(t.deck, "Japanese");
    assert_eq!(t.model, "Basic");
    assert_eq!(t.format_front("食べる", "たべる", "to eat"), "食べる\nたべる");
    assert_eq!(t.format_back("食べる", "たべる", "to eat"), "to eat");
}

#[test]
fn card_template_replaces_every_occurrence() {
    let t = CardTemplate::new(
        "D".to_string(),
        "M".to_string(),
        "{term} / {term}".to_string(),
        "{reading}{definition}".to_string(),
    );
    assert_eq!(t.format_front("水", "みず", "water"), "水 / 水");
    assert_eq!(t.format_back("水", "みず", "water"), "みずwater");
}

#[test]
fn config_defaults() {
    let c = Config::default();
    assert_eq!(c.watchdog_timeout_ms, 10000);
    assert_eq!(c.hotkey_poll_interval_ms, 50);
    assert_eq!(c.auto_ocr_interval_ms, 3000);
    assert_eq!(c.watcher_interval_ms, 100);
    assert_eq!(c.timeout_seconds, 30);
    assert!(!c.listen_to_ws);
    assert_eq!(c.ws_url, "ws://localhost:8080");
    assert!(c.delta_time.is_none());
    assert!(c.ocr.enabled);
    assert_eq!(c.ocr.language, "ja");
    assert!(!c.translator.enabled);
    assert_eq!(c.ui.max_text_lines, 3);
    assert!(c.dictionary.enabled);
    assert!(c.dictionary.additional_paths.is_empty());
}

#[test]
fn anki_config_defaults() {
    let a = AnkiConfig::default();
    assert!(a.enabled);
    assert_eq!(a.url, "http://localhost:8765");
    assert_eq!(a.deck, "Japanese");
    assert_eq!(a.model, "Basic");
}

#[test]
fn windows_pipe_path_prefixes_pipe_name() {
    let n = NetworkConfig::new();
    assert_eq!(n.windows_pipe_path(), r"\\.\pipe\saya-pipe");
}

#[test]
fn ui_state_and_ocr_status_start_empty() {
    let s = UiState::new();
    assert!(s.results.is_empty());
    assert!(s.window_ids.is_empty());
    let o = OcrStatus::default();
    assert!(!o.capturing);
    assert_eq!(o.capture_count, 0);
    assert_eq!(o.error_count, 0);
    assert!(o.last_capture_time.is_none());
    assert_eq!(o.current_message, "");
}
