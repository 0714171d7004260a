//! The settings that a caller loads once and hands to the library.
use vstd::prelude::*;

verus! {

/// Access data of the remote API and the mode switches.
#[derive(Clone, Debug, PartialEq)]
pub struct Config {
    pub finanz_api_key: String,
    pub finanz_api_url: String,
    pub auto_refresh: bool,
    pub offline_mode: bool,
}

/// Offline mode is on only where a configuration is present and asks for it.
pub open spec fn spec_offline(config: Option<Config>) -> bool {
    match config {
        Some(c) => c.offline_mode,
        None => false,
    }
}

/// Whether the remote API must be left alone: an absent configuration counts
/// as online.
pub fn is_offline(config: &Option<Config>) -> (r: bool)
    ensures
        r == spec_offline(*config),
{
    match config {
        Some(c) => c.offline_mode,
        None => false,
    }
}

} // verus!
