//! The addresses under which the indicator service answers.

use vstd::prelude::*;
use crate::text::{strip_trailing, trim_end_matches};

verus! {

/// A client of the indicator service, by the address of the service.
#[derive(Debug, PartialEq, Eq)]
pub struct TAClient {
    pub base_url: String,
}

/// The address of an indicator of a pair at an interval.
pub open spec fn indicator_url(
    base_url: Seq<char>,
    indicator: Seq<char>,
    pair: Seq<char>,
    interval: Seq<char>,
) -> Seq<char> {
    base_url + "/v1/indicators/"@ + indicator + "/"@ + pair + "/"@ + interval
}

impl TAClient {
    /// A client of the service at `base_url`; slashes at the end of the
    /// address are dropped.
    pub fn new(base_url: String) -> (client: TAClient)
        ensures
            client.base_url@ == strip_trailing(base_url@, '/'),
    {
        TAClient { base_url: String::from_str(trim_end_matches(base_url.as_str(), '/')) }
    }

    fn url(&self, indicator: &str, pair: &str, interval: &str) -> (url: String)
        ensures
            url@ == indicator_url(self.base_url@, indicator@, pair@, interval@),
    {
        self.base_url.clone().concat("/v1/indicators/").concat(indicator).concat("/").concat(
            pair,
        ).concat("/").concat(interval)
    }

    /// Where the relative strength index of `pair` at `interval` is read.
    pub fn rsi_url(&self, pair: &str, interval: &str) -> (url: String)
        ensures
            url@ == indicator_url(self.base_url@, "rsi"@, pair@, interval@),
    {
        self.url("rsi", pair, interval)
    }

    /// Where the signals of `pair` at `interval` are read.
    pub fn signals_url(&self, pair: &str, interval: &str) -> (url: String)
        ensures
            url@ == indicator_url(self.base_url@, "signals"@, pair@, interval@),
    {
        self.url("signals", pair, interval)
    }
}

} // verus!
