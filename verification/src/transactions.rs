//! Transactions: lookup, submission, history, the pending pool.

use crate::client::StratSDK;
use crate::json::{empty_members, insert_member, json_view, object_value, text_value, Json};
use crate::request::{ApiRequest, HttpMethod};
use crate::text::{decimal_digits, decimal_string};
use serde_json::Value;
use vstd::prelude::*;

verus! {

impl StratSDK {
    /// Asks for one transaction.
    pub fn get_transaction(&self, tx_id: &str) -> (request: ApiRequest)
        ensures
            request@ == self@.plan(HttpMethod::Get, "/api/transactions/"@ + tx_id@, None),
    {
        let mut endpoint = "/api/transactions/".to_string();
        endpoint.append(tx_id);
        self.request(HttpMethod::Get, endpoint.as_str(), None)
    }

    /// Submits a transfer of `amount`, a JSON number, between two addresses.
    pub fn send_transaction(
        &self,
        from_address: &str,
        to_address: &str,
        amount: Value,
        private_key: &str,
    ) -> (request: ApiRequest)
        ensures
            request@ == self@.plan(
                HttpMethod::Post,
                "/api/transactions/send"@,
                Some(
                    Json::Object(
                        map![
                            "fromAddress"@ => Json::Text(from_address@),
                            "toAddress"@ => Json::Text(to_address@),
                            "amount"@ => json_view(amount),
                            "privateKey"@ => Json::Text(private_key@),
                        ],
                    ),
                ),
            ),
    {
        let mut members = empty_members();
        insert_member(&mut members, "fromAddress", text_value(from_address));
        insert_member(&mut members, "toAddress", text_value(to_address));
        insert_member(&mut members, "amount", amount);
        insert_member(&mut members, "privateKey", text_value(private_key));
        self.request(HttpMethod::Post, "/api/transactions/send", Some(object_value(members)))
    }

    /// Asks for the transactions of `address`: at most `limit` of them, after
    /// skipping `offset`.
    pub fn get_transaction_history(&self, address: &str, limit: u32, offset: u32) -> (request:
        ApiRequest)
        ensures
            request@ == self@.plan(
                HttpMethod::Get,
                "/api/transactions/history/"@ + address@ + "?limit="@ + decimal_digits(
                    limit as nat,
                ) + "&offset="@ + decimal_digits(offset as nat),
                None,
            ),
    {
        let mut endpoint = "/api/transactions/history/".to_string();
        endpoint.append(address);
        endpoint.append("?limit=");
        endpoint.append(decimal_string(limit as u64).as_str());
        endpoint.append("&offset=");
        endpoint.append(decimal_string(offset as u64).as_str());
        self.request(HttpMethod::Get, endpoint.as_str(), None)
    }

    /// Asks for the transactions that wait for a block.
    pub fn get_pending_transactions(&self) -> (request: ApiRequest)
        ensures
            request@ == self@.plan(HttpMethod::Get, "/api/transactions/pending"@, None),
    {
        self.request(HttpMethod::Get, "/api/transactions/pending", None)
    }
}

} // verus!
