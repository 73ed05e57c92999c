//! A ledger-state transition module that keeps a single configuration
//! record, lets exactly one owner replace it, and turns registration
//! requests into outbound mint messages for a separate NFT module.

pub mod decimal;
pub mod error;
pub mod context;
pub mod state;
pub mod msg;
pub mod contract;
