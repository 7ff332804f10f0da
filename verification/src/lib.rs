//! Control logic of a mining dashboard's toolbar.
//!
//! The toolbar leads a user from "no mining account" through the opening of
//! an account to active mining, and then reports how mining goes. This crate
//! holds the rules of that course and nothing that waits, fetches or draws:
//!
//! - [`async_result`]: the lifecycle of a fetched value;
//! - [`wallet`]: what is read of the wallet connection;
//! - [`signature`]: the protocol of one signature request;
//! - [`provisioner`]: the request that opens a mining account;
//! - [`snapshot`]: the on-chain accounts that the toolbar reads, as plain values;
//! - [`metrics`]: what the toolbar shows of them;
//! - [`poller`]: the snapshot slots and the session timer;
//! - [`orchestrator`]: the state machine that ties these together;
//! - [`history`]: what holds along every sequence of events.
//!
//! The caller runs the clock, talks to the wallet and the chain, and hands
//! what happened to the orchestrator, which answers with what to do next.

pub mod async_result;
pub mod history;
pub mod metrics;
pub mod orchestrator;
pub mod poller;
pub mod provisioner;
pub mod signature;
pub mod snapshot;
pub mod wallet;
