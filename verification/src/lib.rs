//! Decoders that turn raw contract calls and pool-manager logs into typed records.
//!
//! `metadata` resolves token name, symbol and decimals updates from a call's input;
//! `mapper` recognises pool-manager events in a block's logs and normalises them.
pub mod abi;
pub mod events;
pub mod mapper;
pub mod metadata;
pub mod poolmanager;
pub mod text;
pub mod tokens;
pub mod wide;
