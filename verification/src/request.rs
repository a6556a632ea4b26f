//! One HTTP request, described as data: the verb, the absolute URL, the
//! headers and the JSON body. The library plans requests; sending them is the
//! caller's part.

use crate::config::ConfigModel;
use crate::json::{json_view, Json};
use serde_json::Value;
use vstd::prelude::*;

verus! {

/// The HTTP verbs that the service takes.
#[derive(Debug, Clone, Copy, PartialEq, Eq, Structural)]
pub enum HttpMethod {
    Get,
    Post,
}

/// One request header.
#[derive(Debug)]
pub struct Header {
    pub name: String,
    pub value: String,
}

/// A header as a mathematical value.
pub struct HeaderModel {
    pub name: Seq<char>,
    pub value: Seq<char>,
}

impl View for Header {
    type V = HeaderModel;

    open spec fn view(&self) -> HeaderModel {
        HeaderModel { name: self.name@, value: self.value@ }
    }
}

/// A request that is ready to be sent.
#[derive(Debug)]
pub struct ApiRequest {
    pub method: HttpMethod,
    /// Absolute URL: the base URL directly followed by the path.
    pub url: String,
    pub headers: Vec<Header>,
    /// JSON payload, where the request has one.
    pub body: Option<Value>,
}

/// A request as a mathematical value.
pub struct RequestModel {
    pub method: HttpMethod,
    pub url: Seq<char>,
    pub headers: Seq<HeaderModel>,
    pub body: Option<Json>,
}

/// The document of an optional body.
pub open spec fn body_view(body: Option<Value>) -> Option<Json> {
    match body {
        Some(v) => Some(json_view(v)),
        None => None,
    }
}

impl View for ApiRequest {
    type V = RequestModel;

    open spec fn view(&self) -> RequestModel {
        RequestModel {
            method: self.method,
            url: self.url@,
            headers: self.headers@.map_values(|h: Header| h@),
            body: body_view(self.body),
        }
    }
}

/// The header that announces a JSON payload.
pub open spec fn json_content_type() -> HeaderModel {
    HeaderModel { name: "Content-Type"@, value: "application/json"@ }
}

impl ConfigModel {
    /// The header that carries the bearer credential, where one is
    /// configured.
    pub open spec fn credential_headers(self) -> Seq<HeaderModel> {
        match self.api_key {
            Some(key) => seq![HeaderModel { name: "Authorization"@, value: "Bearer "@ + key }],
            None => Seq::empty(),
        }
    }

    /// The headers of a request: the credential, then the content type where
    /// the request has a payload.
    pub open spec fn headers(self, with_body: bool) -> Seq<HeaderModel> {
        if with_body {
            self.credential_headers().push(json_content_type())
        } else {
            self.credential_headers()
        }
    }

    /// The request for `endpoint` under this configuration. The URL is the
    /// base URL followed by the path as given: no separator is added or
    /// removed.
    pub open spec fn plan(self, method: HttpMethod, endpoint: Seq<char>, body: Option<Json>)
        -> RequestModel {
        RequestModel {
            method,
            url: self.api_url + endpoint,
            headers: self.headers(body is Some),
            body,
        }
    }
}

} // verus!
