//! Lifecycle of an on-chain address lookup table: deriving its address,
//! creating and extending it, waiting until the ledger shows it, and compiling
//! messages that name accounts by their index in the table.

pub mod account;
pub mod activation;
pub mod address;
pub mod config;
pub mod deriver;
pub mod error;
pub mod instruction;
pub mod lifecycle;
pub mod message;
pub mod submit;
pub mod table;
pub mod wire;
