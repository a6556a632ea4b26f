//! Explorer: the view of an address, the largest holders, network statistics,
//! and the health probe.

use crate::client::StratSDK;
use crate::request::{ApiRequest, HttpMethod};
use crate::text::{decimal_digits, decimal_string};
use vstd::prelude::*;

verus! {

impl StratSDK {
    /// Asks for what the explorer shows of `address`.
    pub fn search_address(&self, address: &str) -> (request: ApiRequest)
        ensures
            request@ == self@.plan(HttpMethod::Get, "/api/explorer/address/"@ + address@, None),
    {
        let mut endpoint = "/api/explorer/address/".to_string();
        endpoint.append(address);
        self.request(HttpMethod::Get, endpoint.as_str(), None)
    }

    /// Asks for the `limit` largest holders.
    pub fn get_rich_list(&self, limit: u32) -> (request: ApiRequest)
        ensures
            request@ == self@.plan(
                HttpMethod::Get,
                "/api/explorer/richlist?limit="@ + decimal_digits(limit as nat),
                None,
            ),
    {
        let mut endpoint = "/api/explorer/richlist?limit=".to_string();
        endpoint.append(decimal_string(limit as u64).as_str());
        self.request(HttpMethod::Get, endpoint.as_str(), None)
    }

    /// Asks for the statistics of the network.
    pub fn get_network_stats(&self) -> (request: ApiRequest)
        ensures
            request@ == self@.plan(HttpMethod::Get, "/api/explorer/stats"@, None),
    {
        self.request(HttpMethod::Get, "/api/explorer/stats", None)
    }

    /// Asks whether the service is up.
    pub fn health_check(&self) -> (request: ApiRequest)
        ensures
            request@ == self@.plan(HttpMethod::Get, "/health"@, None),
    {
        self.request(HttpMethod::Get, "/health", None)
    }
}

} // verus!
