//! Configuration of the Marketstack market-data collaborator.
//!
//! As with the other price source, only the client's settings are logic of
//! this library; the HTTP fetch is I/O at the edge, performed outside it.

use vstd::prelude::*;

verus! {

/// Connection settings for the Marketstack end-of-day endpoint.
#[derive(Debug)]
pub struct MarketstackApi {
    pub base_url: String,
    pub api_key: String,
}

impl MarketstackApi {
    /// A client aimed at the fixed endpoint with the caller's key.
    pub fn new(api_key: String) -> (r: MarketstackApi)
        ensures
            r.api_key == api_key,
            r.base_url@ == "http://api.marketstack.com/v1/"@,
    {
        MarketstackApi { base_url: "http://api.marketstack.com/v1/".to_owned(), api_key }
    }
}

} // verus!
