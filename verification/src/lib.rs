//! A two-party escrowed token-swap agreement: an initiator locks a token
//! amount, a counterparty locks a matching amount, and either side can later
//! trigger a settlement that exchanges the two deposits, or a cancellation
//! that refunds whoever already deposited.
//!
//! The crate holds the agreement state machine and its storage and query
//! layer: the lifecycle of an [`state::Agreement`] through the states
//! initiated, accepted, executed and canceled, the authorization and
//! fund-matching rules guarding each transition, the counters that track
//! population per status, and the indexed query interface.  Every transition
//! is a function of plain values (current state, caller identity, attached
//! funds, queried balances); the host that dispatches messages, persists
//! bytes and moves funds stands outside this crate and hands those values in.

pub mod contract;
pub mod error;
pub mod laws;
pub mod msg;
pub mod numerals;
pub mod state;
pub mod utils;

pub use crate::error::ContractError;
