//! Wallets: registration, balance, wallet information, unspent outputs.

use crate::client::StratSDK;
use crate::json::{empty_members, insert_member, object_value, text_value, Json};
use crate::request::{ApiRequest, HttpMethod};
use vstd::prelude::*;

verus! {

impl StratSDK {
    /// Registers a wallet under `username`.
    pub fn create_wallet(&self, username: &str, password: &str) -> (request: ApiRequest)
        ensures
            request@ == self@.plan(
                HttpMethod::Post,
                "/api/auth/register"@,
                Some(
                    Json::Object(
                        map![
                            "username"@ => Json::Text(username@),
                            "password"@ => Json::Text(password@),
                        ],
                    ),
                ),
            ),
    {
        let mut members = empty_members();
        insert_member(&mut members, "username", text_value(username));
        insert_member(&mut members, "password", text_value(password));
        self.request(HttpMethod::Post, "/api/auth/register", Some(object_value(members)))
    }

    /// Asks for the balance of `address`. `StratSDK::balance` reads the
    /// balance from the result.
    pub fn get_balance(&self, address: &str) -> (request: ApiRequest)
        ensures
            request@ == self@.plan(HttpMethod::Get, "/api/wallets/balance/"@ + address@, None),
    {
        let mut endpoint = "/api/wallets/balance/".to_string();
        endpoint.append(address);
        self.request(HttpMethod::Get, endpoint.as_str(), None)
    }

    /// Asks for what the service knows of the wallet at `address`.
    pub fn get_wallet_info(&self, address: &str) -> (request: ApiRequest)
        ensures
            request@ == self@.plan(HttpMethod::Get, "/api/wallets/"@ + address@, None),
    {
        let mut endpoint = "/api/wallets/".to_string();
        endpoint.append(address);
        self.request(HttpMethod::Get, endpoint.as_str(), None)
    }

    /// Asks for the unspent outputs of `address`.
    pub fn get_utxos(&self, address: &str) -> (request: ApiRequest)
        ensures
            request@ == self@.plan(HttpMethod::Get, "/api/wallets/utxos/"@ + address@, None),
    {
        let mut endpoint = "/api/wallets/utxos/".to_string();
        endpoint.append(address);
        self.request(HttpMethod::Get, endpoint.as_str(), None)
    }
}

} // verus!
