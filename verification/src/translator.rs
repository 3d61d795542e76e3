//! Descriptive facts about a translation provider.  The translation
//! client itself performs HTTP calls and stays outside the library.

use vstd::prelude::*;

verus! {

/// What a translation provider says about itself.
#[derive(Debug, Clone)]
pub struct ProviderMetadata {
    pub name: String,
    pub requires_api_key: bool,
    pub free_tier_available: bool,
}

} // verus!
