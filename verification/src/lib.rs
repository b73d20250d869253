//! End-to-end scenarios for a Nostr faucet.
//!
//! A faucet takes requests and grants over a relay and pays out of a wallet. The library
//! decides what a scenario does next and what is made of what came of it; it composes,
//! seals and signs what is sent, and reads what comes back. Whoever runs a scenario
//! performs what it asks for: they talk to the relay and the nodes, and keep the time.

pub mod binary;
pub mod cast;
pub mod config;
pub mod events;
pub mod failure;
pub mod funding;
pub mod grant;
pub mod json;
pub mod keys;
pub mod limits;
pub mod live;
pub mod nwc;
pub mod scenario;
pub mod script;
pub mod seal;
pub mod text;
pub mod verdict;

pub use crate::config::faucet_toml;
pub use crate::grant::{publish_grant, publish_grant_for};
pub use crate::nwc::{ask, call, refusal, REQUEST_KIND, RESPONSE_KIND};
