//! Configuration of the Alpha Vantage market-data collaborator.
//!
//! Only the client's settings are logic of this library; the HTTP fetch
//! itself is I/O at the edge, performed outside it, and its result is
//! purely informational here.

use vstd::prelude::*;

verus! {

/// Connection settings for the Alpha Vantage daily time-series endpoint.
#[derive(Debug)]
pub struct AlphaVantageApi {
    pub base_url: String,
    pub api_key: String,
}

impl AlphaVantageApi {
    /// A client aimed at the fixed query endpoint with the caller's key.
    pub fn new(api_key: String) -> (r: AlphaVantageApi)
        ensures
            r.api_key == api_key,
            r.base_url@ == "https://www.alphavantage.co/query?"@,
    {
        AlphaVantageApi { base_url: "https://www.alphavantage.co/query?".to_owned(), api_key }
    }
}

} // verus!
