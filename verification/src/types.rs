//! The shared event and display types that the surrounding application
//! passes between its tasks: plain values the engine's results flow
//! through.

use vstd::prelude::*;

verus! {

/// A rectangular region of the screen.
#[derive(Debug, Clone, Copy)]
pub struct CaptureRegion {
    pub x: i32,
    pub y: i32,
    pub width: u32,
    pub height: u32,
}

/// A captured image as raw pixel bytes with its dimensions.
pub struct RawImage {
    pub data: Vec<u8>,
    pub width: u32,
    pub height: u32,
}

/// Where a piece of captured text came from.
#[derive(Debug, Clone)]
pub enum TextSource {
    Ocr,
    Clipboard,
    Websocket,
    Manual,
}

/// One result row shaped for display: the term, one reading and one
/// definition, and the optional enrichment strings.
#[derive(Debug, Clone)]
pub struct DisplayResult {
    pub term: String,
    pub reading: String,
    pub definition: String,
    pub frequency: Option<String>,
    pub pitch_accent: Option<String>,
    pub jlpt_level: Option<String>,
    pub conjugation: Option<String>,
}

/// An event raised by the overlay.
#[derive(Debug, Clone)]
pub enum UiEvent {
    SearchText(String),
    SelectResult(usize),
    Show,
    Hide,
    Close,
}

/// An event of the application's main loop.
#[derive(Debug, Clone)]
pub enum AppEvent {
    ConfigChanged,
    ConfigUpdate { field: String, value: String },
    UiEvent(UiEvent),
    TextInput(String),
    RawTextInput { text: String, source: TextSource },
    ShowResults(Vec<DisplayResult>),
    CreateCard(DisplayResult),
    TriggerOcr(CaptureRegion),
    TriggerAutoOcr(CaptureRegion),
    UpdateCaptureRegion(CaptureRegion),
    CaptureWindow { window_id: Option<u32> },
    OcrStatusUpdate { status: String, capturing: bool },
    BackendReady,
    ShowTranslation { text: String, from_lang: String, to_lang: String },
}

/// The state of the capture loop: counters and the last message.
pub struct OcrStatus {
    pub capturing: bool,
    pub last_capture_time: Option<u64>,
    pub capture_count: u64,
    pub error_count: u64,
    pub current_message: String,
}

impl Default for OcrStatus {
    /// Idle, with no captures recorded.
    fn default() -> (s: OcrStatus)
        ensures
            !s.capturing,
            s.last_capture_time is None,
            s.capture_count == 0,
            s.error_count == 0,
            s.current_message@.len() == 0,
    {
        OcrStatus {
            capturing: false,
            last_capture_time: None,
            capture_count: 0,
            error_count: 0,
            current_message: String::new(),
        }
    }
}

/// The overlay's own state: the rows on display and the windows offered
/// for capture.
pub struct UiState {
    pub results: Vec<DisplayResult>,
    pub window_ids: Vec<u32>,
}

impl UiState {
    /// No rows and no windows.
    pub fn new() -> (s: UiState)
        ensures
            s.results@.len() == 0,
            s.window_ids@.len() == 0,
    {
        UiState { results: Vec::new(), window_ids: Vec::new() }
    }
}

} // verus!
