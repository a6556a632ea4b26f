//! Chain queries: chain information, one block, the latest blocks.

use crate::client::StratSDK;
use crate::request::{ApiRequest, HttpMethod};
use crate::text::{all_decimal_digits, decimal_digits, decimal_string, is_decimal};
use vstd::prelude::*;

verus! {

impl StratSDK {
    /// Asks for the state of the chain.
    pub fn get_blockchain_info(&self) -> (request: ApiRequest)
        ensures
            request@ == self@.plan(HttpMethod::Get, "/api/blockchain/info"@, None),
    {
        self.request(HttpMethod::Get, "/api/blockchain/info", None)
    }

    /// Asks for one block. An identifier made of decimal digits only is an
    /// index, and any other identifier is a block hash. The empty identifier
    /// has no character that is not a digit, and so counts as an index.
    pub fn get_block(&self, identifier: &str) -> (request: ApiRequest)
        ensures
            all_decimal_digits(identifier@) ==> request@ == self@.plan(
                HttpMethod::Get,
                "/api/blockchain/block-by-index/"@ + identifier@,
                None,
            ),
            !all_decimal_digits(identifier@) ==> request@ == self@.plan(
                HttpMethod::Get,
                "/api/blockchain/block/"@ + identifier@,
                None,
            ),
    {
        let mut endpoint = if is_decimal(identifier) {
            "/api/blockchain/block-by-index/".to_string()
        } else {
            "/api/blockchain/block/".to_string()
        };
        endpoint.append(identifier);
        self.request(HttpMethod::Get, endpoint.as_str(), None)
    }

    /// Asks for the `count` latest blocks.
    pub fn get_latest_blocks(&self, count: u32) -> (request: ApiRequest)
        ensures
            request@ == self@.plan(
                HttpMethod::Get,
                "/api/blockchain/blocks?limit="@ + decimal_digits(count as nat),
                None,
            ),
    {
        let mut endpoint = "/api/blockchain/blocks?limit=".to_string();
        endpoint.append(decimal_string(count as u64).as_str());
        self.request(HttpMethod::Get, endpoint.as_str(), None)
    }
}

} // verus!
