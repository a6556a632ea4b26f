//! Mining: status, start and stop, the statistics of a miner.

use crate::client::StratSDK;
use crate::json::{empty_members, insert_member, object_value, text_value, Json};
use crate::request::{ApiRequest, HttpMethod};
use vstd::prelude::*;

verus! {

impl StratSDK {
    /// Asks for the state of mining.
    pub fn get_mining_info(&self) -> (request: ApiRequest)
        ensures
            request@ == self@.plan(HttpMethod::Get, "/api/mining/info"@, None),
    {
        self.request(HttpMethod::Get, "/api/mining/info", None)
    }

    /// Starts mining to the benefit of `miner_address`.
    pub fn start_mining(&self, miner_address: &str) -> (request: ApiRequest)
        ensures
            request@ == self@.plan(
                HttpMethod::Post,
                "/api/mining/start"@,
                Some(Json::Object(map!["minerAddress"@ => Json::Text(miner_address@)])),
            ),
    {
        let mut members = empty_members();
        insert_member(&mut members, "minerAddress", text_value(miner_address));
        self.request(HttpMethod::Post, "/api/mining/start", Some(object_value(members)))
    }

    /// Stops mining. The request has no body.
    pub fn stop_mining(&self) -> (request: ApiRequest)
        ensures
            request@ == self@.plan(HttpMethod::Post, "/api/mining/stop"@, None),
    {
        self.request(HttpMethod::Post, "/api/mining/stop", None)
    }

    /// Asks for the mining statistics of `address`.
    pub fn get_mining_stats(&self, address: &str) -> (request: ApiRequest)
        ensures
            request@ == self@.plan(HttpMethod::Get, "/api/mining/stats/"@ + address@, None),
    {
        let mut endpoint = "/api/mining/stats/".to_string();
        endpoint.append(address);
        self.request(HttpMethod::Get, endpoint.as_str(), None)
    }
}

} // verus!
