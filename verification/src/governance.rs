//! Governance: proposals and votes.

use crate::client::StratSDK;
use crate::json::{
    empty_members, flag_value, insert_member, json_view, object_value, text_value,
    unsigned_value, Json, JsonNumber,
};
use crate::request::{ApiRequest, HttpMethod};
use crate::text::{decimal_digits, decimal_string};
use serde_json::Value;
use vstd::prelude::*;

verus! {

impl StratSDK {
    /// Files a proposal. `data` is the body, as it is.
    pub fn create_proposal(&self, data: Value) -> (request: ApiRequest)
        ensures
            request@ == self@.plan(
                HttpMethod::Post,
                "/api/governance/proposal"@,
                Some(json_view(data)),
            ),
    {
        self.request(HttpMethod::Post, "/api/governance/proposal", Some(data))
    }

    /// Casts the vote of `voter` on the proposal `proposal_id`.
    pub fn vote(&self, proposal_id: u64, vote: bool, voter: &str, private_key: &str) -> (request:
        ApiRequest)
        ensures
            request@ == self@.plan(
                HttpMethod::Post,
                "/api/governance/vote"@,
                Some(
                    Json::Object(
                        map![
                            "proposalId"@ => Json::Number(JsonNumber::PosInt(proposal_id)),
                            "vote"@ => Json::Bool(vote),
                            "voter"@ => Json::Text(voter@),
                            "privateKey"@ => Json::Text(private_key@),
                        ],
                    ),
                ),
            ),
    {
        let mut members = empty_members();
        insert_member(&mut members, "proposalId", unsigned_value(proposal_id));
        insert_member(&mut members, "vote", flag_value(vote));
        insert_member(&mut members, "voter", text_value(voter));
        insert_member(&mut members, "privateKey", text_value(private_key));
        self.request(HttpMethod::Post, "/api/governance/vote", Some(object_value(members)))
    }

    /// Asks for the proposal `proposal_id`.
    pub fn get_proposal(&self, proposal_id: u64) -> (request: ApiRequest)
        ensures
            request@ == self@.plan(
                HttpMethod::Get,
                "/api/governance/proposal/"@ + decimal_digits(proposal_id as nat),
                None,
            ),
    {
        let mut endpoint = "/api/governance/proposal/".to_string();
        endpoint.append(decimal_string(proposal_id).as_str());
        self.request(HttpMethod::Get, endpoint.as_str(), None)
    }

    /// Asks for all proposals.
    pub fn list_proposals(&self) -> (request: ApiRequest)
        ensures
            request@ == self@.plan(HttpMethod::Get, "/api/governance/proposals"@, None),
    {
        self.request(HttpMethod::Get, "/api/governance/proposals", None)
    }
}

} // verus!
