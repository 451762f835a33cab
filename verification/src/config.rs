//! The configuration of the program, as plain values. Loading and decoding
//! the configuration file happens outside the library.

use vstd::prelude::*;

verus! {

/// Holds the configuration of the program.
#[derive(Debug, Clone, PartialEq, Eq)]
pub struct Configuration {
    /// The Tandoor API version that is used (either of the supported two).
    pub tandoor_version: String,
    /// The API key used to access Tandoor resources.
    pub tandoor_api_key: String,
    /// The host of the Tandoor endpoint.
    pub tandoor_url: String,
    /// The API key used to access USDA FDC resources.
    pub usda_api_key: String,
}

} // verus!
