//! Typed request planning and response handling for the STRAT blockchain REST API.

pub mod address;
pub mod blockchain;
pub mod client;
pub mod config;
pub mod contracts;
pub mod error;
pub mod explorer;
pub mod governance;
pub mod json;
pub mod mining;
pub mod nft;
pub mod request;
pub mod response;
pub mod staking;
pub mod text;
pub mod transactions;
pub mod wallet;

pub use client::StratSDK;
pub use config::StratSDKConfig;
pub use error::StratError;
pub use request::{ApiRequest, Header, HttpMethod};
