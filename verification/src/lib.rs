//! Relay engine for a two-way bridge between a source chain and a custodial ledger.

pub mod builder;
pub mod codec;
pub mod common;
pub mod config;
pub mod constants;
pub mod envelope;
pub mod errors;
pub mod estimate;
pub mod guard;
pub mod http;
pub mod logs;
pub mod mint;
pub mod models;
pub mod natural;
pub mod principal;
pub mod records;
pub mod requests;
pub mod store;
pub mod transaction;
pub mod withdraw;
