//! Dictionary settings.

use vstd::prelude::*;

verus! {

/// Settings of the dictionary: whether lookup is on, and supplemental
/// dictionary files to merge on top of the built-in data.
pub struct DictionaryConfig {
    pub enabled: bool,
    pub additional_paths: Vec<String>,
}

impl Default for DictionaryConfig {
    /// Enabled, with no supplemental dictionaries.
    fn default() -> (c: DictionaryConfig)
        ensures
            c.enabled,
            c.additional_paths@.len() == 0,
    {
        DictionaryConfig { enabled: true, additional_paths: Vec::new() }
    }
}

} // verus!
