//! Application configuration: plain settings records with their default
//! values.  Reading overrides from the environment or from profile files
//! is the surrounding application's concern; the records themselves are
//! plain values.

use vstd::prelude::*;

pub mod anki;
pub mod dictionary;
pub mod network;
pub mod ocr;
pub mod translator;
pub mod ui;

use anki::AnkiConfig;
use dictionary::DictionaryConfig;
use ocr::OcrConfig;
use translator::TranslatorConfig;
use ui::UiConfig;

verus! {

/// The default watchdog timeout in milliseconds.
pub fn default_watchdog_timeout_ms() -> (r: u64)
    ensures
        r == 10000,
{
    10000
}

/// The default hotkey poll interval in milliseconds.
pub fn default_hotkey_poll_interval_ms() -> (r: u64)
    ensures
        r == 50,
{
    50
}

/// The default automatic capture interval in milliseconds.
pub fn default_auto_ocr_interval_ms() -> (r: u64)
    ensures
        r == 3000,
{
    3000
}

/// The default watcher interval in milliseconds.
pub fn default_watcher_interval_ms() -> (r: u64)
    ensures
        r == 100,
{
    100
}

/// The default request timeout in seconds.
pub fn default_timeout_seconds() -> (r: i32)
    ensures
        r == 30,
{
    30
}

/// The default websocket address to listen on.
pub fn default_ws_url() -> (r: String)
    ensures
        r@ == "ws://localhost:8080"@,
{
    String::from_str("ws://localhost:8080")
}

/// The whole application configuration.
pub struct Config {
    pub ui: UiConfig,
    pub ocr: OcrConfig,
    pub anki: AnkiConfig,
    pub dictionary: DictionaryConfig,
    pub translator: TranslatorConfig,
    pub watchdog_timeout_ms: u64,
    pub hotkey_poll_interval_ms: u64,
    pub auto_ocr_interval_ms: u64,
    pub watcher_interval_ms: u64,
    pub timeout_seconds: i32,
    pub listen_to_ws: bool,
    pub ws_url: String,
    pub delta_time: Option<u64>,
}

impl Default for Config {
    /// Every section and interval at its default.
    fn default() -> (c: Config)
        ensures
            c.ui.max_text_lines == 3,
            c.ocr.enabled && c.ocr.auto,
            c.ocr.language@ == "ja"@,
            c.anki.enabled,
            c.anki.deck@ == "Japanese"@,
            c.dictionary.enabled,
            c.dictionary.additional_paths@.len() == 0,
            !c.translator.enabled,
            c.watchdog_timeout_ms == 10000,
            c.hotkey_poll_interval_ms == 50,
            c.auto_ocr_interval_ms == 3000,
            c.watcher_interval_ms == 100,
            c.timeout_seconds == 30,
            !c.listen_to_ws,
            c.ws_url@ == "ws://localhost:8080"@,
            c.delta_time is None,
    {
        Config {
            ui: UiConfig::new(),
            ocr: OcrConfig::default(),
            anki: AnkiConfig::default(),
            dictionary: DictionaryConfig::default(),
            translator: TranslatorConfig::default(),
            watchdog_timeout_ms: default_watchdog_timeout_ms(),
            hotkey_poll_interval_ms: default_hotkey_poll_interval_ms(),
            auto_ocr_interval_ms: default_auto_ocr_interval_ms(),
            watcher_interval_ms: default_watcher_interval_ms(),
            timeout_seconds: default_timeout_seconds(),
            listen_to_ws: false,
            ws_url: default_ws_url(),
            delta_time: None,
        }
    }
}

/// A named user profile holding a configuration.
pub struct Profile {
    pub name: String,
    pub value: Config,
}

} // verus!
