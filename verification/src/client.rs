//! The client: a configuration, and the request that each call sends.

use crate::config::{ConfigModel, StratSDKConfig};
use crate::error::StratError;
use crate::request::{body_view, ApiRequest, Header, HttpMethod};
use serde_json::Value;
use vstd::prelude::*;

verus! {

/// A client of the service. It holds its configuration and nothing else, and
/// performs no I/O: each method describes the one request of that call.
pub struct StratSDK {
    config: StratSDKConfig,
}

impl View for StratSDK {
    type V = ConfigModel;

    closed spec fn view(&self) -> ConfigModel {
        self.config@
    }
}

impl StratSDK {
    /// Builds a client from `config`. This always succeeds.
    pub fn new(config: StratSDKConfig) -> (client: Result<Self, StratError>)
        ensures
            client matches Ok(sdk) && sdk@ == config@,
    {
        Ok(StratSDK { config })
    }

    /// Builds a client with the default configuration. This always succeeds.
    pub fn with_default() -> (client: Result<Self, StratError>)
        ensures
            client matches Ok(sdk) && sdk@ == ConfigModel::standard(),
    {
        Self::new(StratSDKConfig::default())
    }

    /// Plans the request for `endpoint`: the URL is the base URL followed by
    /// `endpoint`, the bearer credential goes into an `Authorization` header
    /// where one is configured, and `body`, where there is one, is the JSON
    /// payload and is announced by a `Content-Type` header.
    pub fn request(&self, method: HttpMethod, endpoint: &str, body: Option<Value>) -> (request:
        ApiRequest)
        ensures
            request@ == self@.plan(method, endpoint@, body_view(body)),
    {
        let mut url = self.config.api_url.clone();
        url.append(endpoint);
        let mut headers: Vec<Header> = Vec::new();
        match &self.config.api_key {
            Some(api_key) => {
                let mut value = "Bearer ".to_string();
                value.append(api_key.as_str());
                headers.push(Header { name: "Authorization".to_string(), value });
            },
            None => {},
        }
        if body.is_some() {
            headers.push(
                Header { name: "Content-Type".to_string(), value: "application/json".to_string() },
            );
        }
        let request = ApiRequest { method, url, headers, body };
        assert(request@.headers =~= self@.headers(body is Some));
        request
    }
}

} // verus!
