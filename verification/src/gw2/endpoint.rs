//! The route metadata that the official `/v2.json` list reports.
use vstd::prelude::*;

verus! {

/// One route of the official route list: its path, and whether it takes
/// `lang`, needs a key and is active.
#[derive(Debug, Clone)]
pub struct EndpointSpec {
    pub path: String,
    pub lang: bool,
    pub auth: bool,
    pub active: bool,
}

} // verus!
