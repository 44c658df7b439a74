//! Client configuration shared by every entry point.
use vstd::prelude::*;

verus! {

/// The official API origin.
pub const DEFAULT_API_BASE_URL: &'static str = "https://api.guildwars2.com";

/// The Guild Wars 2 Wiki MediaWiki endpoint.
pub const DEFAULT_WIKI_BASE_URL: &'static str = "https://wiki.guildwars2.com/api.php";

/// The `User-Agent` that every HTTP request carries.
pub const DEFAULT_USER_AGENT: &'static str = "gw3/0.0.1";

/// The request timeout, in seconds, that a default configuration uses.
pub const DEFAULT_TIMEOUT_SECS: u64 = 30;

/// Where requests go, in which language and schema version, and with which key.
#[derive(Debug, Clone)]
pub struct ClientConfig {
    pub base_url: String,
    pub wiki_base_url: String,
    pub lang: Option<String>,
    pub schema_version: Option<String>,
    pub api_key: Option<String>,
    pub timeout_secs: u64,
}

impl Default for ClientConfig {
    /// The official origins, no language, no schema version, no key and a
    /// thirty-second timeout.
    fn default() -> (res: Self)
        ensures
            res.base_url@ == DEFAULT_API_BASE_URL@,
            res.wiki_base_url@ == DEFAULT_WIKI_BASE_URL@,
            res.lang is None,
            res.schema_version is None,
            res.api_key is None,
            res.timeout_secs == 30,
    {
        ClientConfig {
            base_url: String::from_str(DEFAULT_API_BASE_URL),
            wiki_base_url: String::from_str(DEFAULT_WIKI_BASE_URL),
            lang: None,
            schema_version: None,
            api_key: None,
            timeout_secs: DEFAULT_TIMEOUT_SECS,
        }
    }
}

} // verus!
