//! Confidential parimutuel prediction market: verified market state machine,
//! pool accumulator, computation coordinator and payout engine.

pub mod address;
pub mod circuits;
pub mod coordinator;
pub mod error;
pub mod integration;
pub mod payout;
pub mod program;
pub mod settlement;
pub mod state;
