use vstd::prelude::*;

use crate::text::owned;

verus! {

broadcast use vstd::string::group_string_axioms;

/// Where the browser front end finds the flight service.
#[derive(Debug)]
pub struct Config;

impl Config {
    /// The path of the flights API.
    pub fn flights_api_url() -> (r: &'static str)
        ensures
            r@ == "/api/flights"@,
    {
        "/api/flights"
    }

    /// The base URL of API requests: the one configured (in the environment, read by the
    /// caller), or else empty, so that requests go to the page's own origin, where the
    /// reverse proxy forwards them.
    pub fn api_base_url(configured: Option<String>) -> (r: String)
        ensures
            configured matches Some(u) ==> r@ == u@,
            configured is None ==> r@ == Seq::<char>::empty(),
    {
        match configured {
            Some(u) => u,
            None => String::new(),
        }
    }
}

} // verus!
