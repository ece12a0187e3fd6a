//! The core of an off-chain price oracle.
//!
//! A worker outside consensus fetches a price, turns it into a fixed-point
//! sample and proposes it to the ledger as an unsigned message; consensus
//! execution admits the message and records the sample in a bounded history.
//!
//! The crate holds the decisions of that pipeline. The network, the clock and
//! the pending pool stay with the caller, which hands their results in as
//! plain values.

pub mod sample;
pub mod text;
pub mod codec;
pub mod history;
pub mod document;
pub mod fetch;
pub mod parser;
pub mod admission;
pub mod pallet;
pub mod worker;
