//! Client configuration: where the service lives, the optional bearer
//! credential, and how long a request may take.

use std::time::Duration;
use vstd::prelude::*;

verus! {

/// The length of a `Duration` in nanoseconds.
pub uninterp spec fn duration_nanos(d: Duration) -> nat;

/// `Duration::from_secs` makes a duration of that many whole seconds.
pub assume_specification[ Duration::from_secs ](secs: u64) -> (d: Duration)
    ensures
        duration_nanos(d) == secs * 1_000_000_000,
;

/// Base URL of the default configuration: a local development endpoint.
pub open spec fn default_api_url() -> Seq<char> {
    "http://localhost:3000"@
}

/// Timeout of the default configuration, in seconds.
pub const DEFAULT_TIMEOUT_SECS: u64 = 30;

/// Settings of a client. They are fixed once the client is built.
#[derive(Debug)]
pub struct StratSDKConfig {
    /// Base URL; request paths are appended to it as they are.
    pub api_url: String,
    /// Bearer credential, sent with every request when present.
    pub api_key: Option<String>,
    /// Time allowed for one request.
    pub timeout: Duration,
}

/// A configuration as a mathematical value.
pub struct ConfigModel {
    pub api_url: Seq<char>,
    pub api_key: Option<Seq<char>>,
    pub timeout_nanos: nat,
}

impl View for StratSDKConfig {
    type V = ConfigModel;

    open spec fn view(&self) -> ConfigModel {
        ConfigModel {
            api_url: self.api_url@,
            api_key: match self.api_key {
                Some(key) => Some(key@),
                None => None,
            },
            timeout_nanos: duration_nanos(self.timeout),
        }
    }
}

impl ConfigModel {
    /// The default configuration: the local endpoint, no credential, thirty seconds.
    pub open spec fn standard() -> ConfigModel {
        ConfigModel {
            api_url: default_api_url(),
            api_key: None,
            timeout_nanos: 30_000_000_000,
        }
    }
}

impl Clone for StratSDKConfig {
    fn clone(&self) -> (copy: Self)
        ensures
            copy@ == self@,
    {
        StratSDKConfig {
            api_url: self.api_url.clone(),
            api_key: match &self.api_key {
                Some(key) => Some(key.clone()),
                None => None,
            },
            timeout: self.timeout,
        }
    }
}

impl Default for StratSDKConfig {
    fn default() -> (config: Self)
        ensures
            config@ == ConfigModel::standard(),
    {
        StratSDKConfig {
            api_url: "http://localhost:3000".to_string(),
            api_key: None,
            timeout: Duration::from_secs(DEFAULT_TIMEOUT_SECS),
        }
    }
}

} // verus!
