//! Settings that the service is started with.

use vstd::prelude::*;
use vstd::string::*;

verus! {

/// The settings of a running service.
#[derive(Clone, Debug)]
pub struct Config {
    pub database_url: String,
    pub gemini_api_key: String,
    pub mock_gemini: bool,
}

/// The view of an optional string.
pub open spec fn opt_view(s: Option<String>) -> Option<Seq<char>> {
    match s {
        Some(t) => Some(t@),
        None => None,
    }
}

/// Whether the mock switch is on for the value that the environment gives
/// it: exactly when the value is `true`.
pub open spec fn mock_switch(value: Option<Seq<char>>) -> bool {
    value == Some("true"@)
}

impl Config {
    /// Builds the settings from the values found in the environment. The
    /// database address and the backend key are required: a service cannot
    /// start without either, so the caller stops before this call where one
    /// is missing. Both are taken as given. The mock switch is on exactly
    /// when its value is `true`; it is off where no value is given.
    pub fn init(
        database_url: Option<String>,
        gemini_api_key: Option<String>,
        mock_gemini: Option<String>,
    ) -> (r: Config)
        requires
            database_url is Some,
            gemini_api_key is Some,
        ensures
            Some(r.database_url@) == opt_view(database_url),
            Some(r.gemini_api_key@) == opt_view(gemini_api_key),
            r.mock_gemini == mock_switch(opt_view(mock_gemini)),
    {
        let mock_gemini = match mock_gemini {
            Some(v) => v == String::from_str("true"),
            None => false,
        };
        Config {
            database_url: database_url.unwrap(),
            gemini_api_key: gemini_api_key.unwrap(),
            mock_gemini,
        }
    }
}

} // verus!
