//! Staking: stake, unstake, the position of an address, rewards.

use crate::client::StratSDK;
use crate::json::{empty_members, insert_member, json_view, object_value, text_value, Json};
use crate::request::{ApiRequest, HttpMethod};
use serde_json::Value;
use vstd::prelude::*;

verus! {

/// The body of a stake or an unstake: who, how much, and the key that signs.
pub open spec fn stake_body(address: Seq<char>, amount: Json, private_key: Seq<char>) -> Json {
    Json::Object(
        map![
            "address"@ => Json::Text(address),
            "amount"@ => amount,
            "privateKey"@ => Json::Text(private_key),
        ],
    )
}

fn stake_members(address: &str, amount: Value, private_key: &str) -> (body: Value)
    ensures
        json_view(body) == stake_body(address@, json_view(amount), private_key@),
{
    let mut members = empty_members();
    insert_member(&mut members, "address", text_value(address));
    insert_member(&mut members, "amount", amount);
    insert_member(&mut members, "privateKey", text_value(private_key));
    object_value(members)
}

impl StratSDK {
    /// Stakes `amount`, a JSON number, from `address`.
    pub fn stake(&self, address: &str, amount: Value, private_key: &str) -> (request: ApiRequest)
        ensures
            request@ == self@.plan(
                HttpMethod::Post,
                "/api/staking/stake"@,
                Some(stake_body(address@, json_view(amount), private_key@)),
            ),
    {
        let body = stake_members(address, amount, private_key);
        self.request(HttpMethod::Post, "/api/staking/stake", Some(body))
    }

    /// Releases `amount`, a JSON number, of the stake of `address`.
    pub fn unstake(&self, address: &str, amount: Value, private_key: &str) -> (request:
        ApiRequest)
        ensures
            request@ == self@.plan(
                HttpMethod::Post,
                "/api/staking/unstake"@,
                Some(stake_body(address@, json_view(amount), private_key@)),
            ),
    {
        let body = stake_members(address, amount, private_key);
        self.request(HttpMethod::Post, "/api/staking/unstake", Some(body))
    }

    /// Asks for the staking position of `address`.
    pub fn get_staking_info(&self, address: &str) -> (request: ApiRequest)
        ensures
            request@ == self@.plan(HttpMethod::Get, "/api/staking/info/"@ + address@, None),
    {
        let mut endpoint = "/api/staking/info/".to_string();
        endpoint.append(address);
        self.request(HttpMethod::Get, endpoint.as_str(), None)
    }

    /// Claims the staking rewards of `address`.
    pub fn claim_rewards(&self, address: &str, private_key: &str) -> (request: ApiRequest)
        ensures
            request@ == self@.plan(
                HttpMethod::Post,
                "/api/staking/claim"@,
                Some(
                    Json::Object(
                        map![
                            "address"@ => Json::Text(address@),
                            "privateKey"@ => Json::Text(private_key@),
                        ],
                    ),
                ),
            ),
    {
        let mut members = empty_members();
        insert_member(&mut members, "address", text_value(address));
        insert_member(&mut members, "privateKey", text_value(private_key));
        self.request(HttpMethod::Post, "/api/staking/claim", Some(object_value(members)))
    }
}

} // verus!
