//! Overlay settings.

use vstd::prelude::*;

verus! {

/// Settings of the overlay.
pub struct UiConfig {
    pub max_text_lines: u32,
}

impl UiConfig {
    /// The default of three text lines.
    pub fn new() -> (c: UiConfig)
        ensures
            c.max_text_lines == 3,
    {
        UiConfig { max_text_lines: 3 }
    }
}

impl Default for UiConfig {
    /// The default of three text lines.
    fn default() -> (c: UiConfig)
        ensures
            c.max_text_lines == 3,
    {
        UiConfig::new()
    }
}

} // verus!
