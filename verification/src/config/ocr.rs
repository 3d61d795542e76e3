//! Screen-capture settings.

use crate::types::CaptureRegion;
use vstd::prelude::*;

verus! {

/// Whether capture is on by default.
pub fn default_enabled() -> (r: bool)
    ensures
        r,
{
    true
}

/// Whether automatic capture is on by default.
pub fn default_auto() -> (r: bool)
    ensures
        r,
{
    true
}

/// The default recognizer language.
pub fn default_language() -> (r: String)
    ensures
        r@ == "ja"@,
{
    String::from_str("ja")
}

/// The border color while ready.
pub fn default_border_ready_color() -> (r: String)
    ensures
        r@ == "#00ff88"@,
{
    String::from_str("#00ff88")
}

/// The border color while capturing.
pub fn default_border_capturing_color() -> (r: String)
    ensures
        r@ == "#ff4444"@,
{
    String::from_str("#ff4444")
}

/// The border color while preparing.
pub fn default_border_preparing_color() -> (r: String)
    ensures
        r@ == "#ffaa00"@,
{
    String::from_str("#ffaa00")
}

/// Settings of screen capture and recognition.
pub struct OcrConfig {
    pub enabled: bool,
    pub auto: bool,
    pub language: String,
    pub capture_region: Option<CaptureRegion>,
    pub target_window: Option<String>,
    pub border_ready_color: String,
    pub border_capturing_color: String,
    pub border_preparing_color: String,
}

impl Default for OcrConfig {
    /// Enabled and automatic, Japanese, no fixed region or window, the
    /// default border colors.
    fn default() -> (c: OcrConfig)
        ensures
            c.enabled,
            c.auto,
            c.language@ == "ja"@,
            c.capture_region is None,
            c.target_window is None,
            c.border_ready_color@ == "#00ff88"@,
            c.border_capturing_color@ == "#ff4444"@,
            c.border_preparing_color@ == "#ffaa00"@,
    {
        OcrConfig {
            enabled: default_enabled(),
            auto: default_auto(),
            language: default_language(),
            capture_region: None,
            target_window: None,
            border_ready_color: default_border_ready_color(),
            border_capturing_color: default_border_capturing_color(),
            border_preparing_color: default_border_preparing_color(),
        }
    }
}

} // verus!
