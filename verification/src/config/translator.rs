//! Translation settings.

use vstd::prelude::*;

verus! {

/// Whether translation is on by default.
pub fn default_enabled() -> (r: bool)
    ensures
        !r,
{
    false
}

/// The default translation provider.
pub fn default_provider() -> (r: String)
    ensures
        r@ == "deepl"@,
{
    String::from_str("deepl")
}

/// The default source language.
pub fn default_from_lang() -> (r: String)
    ensures
        r@ == "ja"@,
{
    String::from_str("ja")
}

/// The default target language.
pub fn default_to_lang() -> (r: String)
    ensures
        r@ == "en"@,
{
    String::from_str("en")
}

/// The default provider endpoint.
pub fn default_api_url() -> (r: String)
    ensures
        r@ == "https://api-free.deepl.com/v2/translate"@,
{
    String::from_str("https://api-free.deepl.com/v2/translate")
}

/// Settings of the translation provider.
pub struct TranslatorConfig {
    pub enabled: bool,
    pub provider: String,
    pub from_lang: String,
    pub to_lang: String,
    pub api_key: String,
    pub api_url: String,
}

impl Default for TranslatorConfig {
    /// Disabled, Japanese to English against the default provider, with
    /// no key.
    fn default() -> (c: TranslatorConfig)
        ensures
            !c.enabled,
            c.provider@ == "deepl"@,
            c.from_lang@ == "ja"@,
            c.to_lang@ == "en"@,
            c.api_key@.len() == 0,
            c.api_url@ == "https://api-free.deepl.com/v2/translate"@,
    {
        TranslatorConfig {
            enabled: default_enabled(),
            provider: default_provider(),
            from_lang: default_from_lang(),
            to_lang: default_to_lang(),
            api_key: String::new(),
            api_url: default_api_url(),
        }
    }
}

} // verus!
