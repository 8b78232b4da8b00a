//! A descriptor-based Bitcoin wallet for regtest, testnet and signet: the
//! configuration rules, key and descriptor planning, and the decisions that the
//! wallet's commands take, each with a verified contract.

pub mod error;
pub mod text;
pub mod config;
pub mod keys;
pub mod commands;
pub mod bitcoin_text;
pub mod node;
