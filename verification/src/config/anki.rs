//! Flashcard-tool settings.

use vstd::prelude::*;

verus! {

/// Whether the flashcard connection is on by default.
pub fn default_enabled() -> (r: bool)
    ensures
        r,
{
    true
}

/// The default flashcard-tool endpoint.
pub fn default_url() -> (r: String)
    ensures
        r@ == "http://localhost:8765"@,
{
    String::from_str("http://localhost:8765")
}

/// The default deck cards are added to.
pub fn default_deck() -> (r: String)
    ensures
        r@ == "Japanese"@,
{
    String::from_str("Japanese")
}

/// The default note model.
pub fn default_model() -> (r: String)
    ensures
        r@ == "Basic"@,
{
    String::from_str("Basic")
}

/// Settings of the flashcard connection.
pub struct AnkiConfig {
    pub enabled: bool,
    pub url: String,
    pub deck: String,
    pub model: String,
}

impl Default for AnkiConfig {
    /// Enabled, against the local endpoint, deck and model at their
    /// defaults.
    fn default() -> (c: AnkiConfig)
        ensures
            c.enabled,
            c.url@ == "http://localhost:8765"@,
            c.deck@ == "Japanese"@,
            c.model@ == "Basic"@,
    {
        AnkiConfig {
            enabled: default_enabled(),
            url: default_url(),
            deck: default_deck(),
            model: default_model(),
        }
    }
}

} // verus!
