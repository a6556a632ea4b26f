//! Tokens: minting, lookup, transfer, the tokens of an owner.

use crate::client::StratSDK;
use crate::json::{
    empty_members, insert_member, json_view, object_value, text_value, unsigned_value, Json,
    JsonNumber,
};
use crate::request::{ApiRequest, HttpMethod};
use crate::text::{decimal_digits, decimal_string};
use serde_json::Value;
use vstd::prelude::*;

verus! {

impl StratSDK {
    /// Mints a token. `data` is the body, as it is.
    pub fn mint_nft(&self, data: Value) -> (request: ApiRequest)
        ensures
            request@ == self@.plan(HttpMethod::Post, "/api/nft/mint"@, Some(json_view(data))),
    {
        self.request(HttpMethod::Post, "/api/nft/mint", Some(data))
    }

    /// Asks for the token `token_id`.
    pub fn get_nft(&self, token_id: u64) -> (request: ApiRequest)
        ensures
            request@ == self@.plan(
                HttpMethod::Get,
                "/api/nft/"@ + decimal_digits(token_id as nat),
                None,
            ),
    {
        let mut endpoint = "/api/nft/".to_string();
        endpoint.append(decimal_string(token_id).as_str());
        self.request(HttpMethod::Get, endpoint.as_str(), None)
    }

    /// Moves the token `token_id` from one owner to another.
    pub fn transfer_nft(&self, token_id: u64, from: &str, to: &str, private_key: &str) -> (request:
        ApiRequest)
        ensures
            request@ == self@.plan(
                HttpMethod::Post,
                "/api/nft/transfer"@,
                Some(
                    Json::Object(
                        map![
                            "tokenId"@ => Json::Number(JsonNumber::PosInt(token_id)),
                            "from"@ => Json::Text(from@),
                            "to"@ => Json::Text(to@),
                            "privateKey"@ => Json::Text(private_key@),
                        ],
                    ),
                ),
            ),
    {
        let mut members = empty_members();
        insert_member(&mut members, "tokenId", unsigned_value(token_id));
        insert_member(&mut members, "from", text_value(from));
        insert_member(&mut members, "to", text_value(to));
        insert_member(&mut members, "privateKey", text_value(private_key));
        self.request(HttpMethod::Post, "/api/nft/transfer", Some(object_value(members)))
    }

    /// Asks for the tokens of `owner`.
    pub fn list_nfts(&self, owner: &str) -> (request: ApiRequest)
        ensures
            request@ == self@.plan(HttpMethod::Get, "/api/nft/list/"@ + owner@, None),
    {
        let mut endpoint = "/api/nft/list/".to_string();
        endpoint.append(owner);
        self.request(HttpMethod::Get, endpoint.as_str(), None)
    }
}

} // verus!
