//! Smart contracts: deployment, calls, lookup, state.

use crate::client::StratSDK;
use crate::json::{
    array_value, empty_members, insert_member, json_views, object_value, text_value, Json,
};
use crate::request::{ApiRequest, HttpMethod};
use serde_json::Value;
use vstd::prelude::*;

verus! {

impl StratSDK {
    /// Deploys the contract `code` for `owner`.
    pub fn deploy_contract(&self, code: &str, owner: &str, private_key: &str) -> (request:
        ApiRequest)
        ensures
            request@ == self@.plan(
                HttpMethod::Post,
                "/api/contracts/deploy"@,
                Some(
                    Json::Object(
                        map![
                            "code"@ => Json::Text(code@),
                            "owner"@ => Json::Text(owner@),
                            "privateKey"@ => Json::Text(private_key@),
                        ],
                    ),
                ),
            ),
    {
        let mut members = empty_members();
        insert_member(&mut members, "code", text_value(code));
        insert_member(&mut members, "owner", text_value(owner));
        insert_member(&mut members, "privateKey", text_value(private_key));
        self.request(HttpMethod::Post, "/api/contracts/deploy", Some(object_value(members)))
    }

    /// Calls `method` of a contract with `params`, in the name of `caller`.
    pub fn call_contract(
        &self,
        contract_address: &str,
        method: &str,
        params: Vec<Value>,
        caller: &str,
        private_key: &str,
    ) -> (request: ApiRequest)
        ensures
            request@ == self@.plan(
                HttpMethod::Post,
                "/api/contracts/call"@,
                Some(
                    Json::Object(
                        map![
                            "contractAddress"@ => Json::Text(contract_address@),
                            "method"@ => Json::Text(method@),
                            "params"@ => Json::Array(json_views(params@)),
                            "caller"@ => Json::Text(caller@),
                            "privateKey"@ => Json::Text(private_key@),
                        ],
                    ),
                ),
            ),
    {
        let mut members = empty_members();
        insert_member(&mut members, "contractAddress", text_value(contract_address));
        insert_member(&mut members, "method", text_value(method));
        insert_member(&mut members, "params", array_value(params));
        insert_member(&mut members, "caller", text_value(caller));
        insert_member(&mut members, "privateKey", text_value(private_key));
        self.request(HttpMethod::Post, "/api/contracts/call", Some(object_value(members)))
    }

    /// Asks for the contract at `contract_address`.
    pub fn get_contract(&self, contract_address: &str) -> (request: ApiRequest)
        ensures
            request@ == self@.plan(
                HttpMethod::Get,
                "/api/contracts/"@ + contract_address@,
                None,
            ),
    {
        let mut endpoint = "/api/contracts/".to_string();
        endpoint.append(contract_address);
        self.request(HttpMethod::Get, endpoint.as_str(), None)
    }

    /// Asks for the state of the contract at `contract_address`.
    pub fn get_contract_state(&self, contract_address: &str) -> (request: ApiRequest)
        ensures
            request@ == self@.plan(
                HttpMethod::Get,
                "/api/contracts/"@ + contract_address@ + "/state"@,
                None,
            ),
    {
        let mut endpoint = "/api/contracts/".to_string();
        endpoint.append(contract_address);
        endpoint.append("/state");
        self.request(HttpMethod::Get, endpoint.as_str(), None)
    }
}

} // verus!
