//! A relay for account-verification events: entries read from a broker stream
//! become verification messages, and each message becomes one request to an
//! email provider.
//!
//! The library holds the decisions of both stages as state machines over plain
//! values. Whoever drives a machine performs the command it names and hands
//! back the event that answers it.

pub mod text;
pub mod config;
pub mod message;
pub mod notice;
pub mod request;
pub mod broker;
pub mod consumer;
pub mod dispatcher;
pub mod handoff;
pub mod plan;
pub mod pipeline;
