//! Block analytics: decoding coinbase scripts, reward arithmetic and the
//! decisions of the producer and consumer stages of the ingestion pipeline.

pub mod batcher;
pub mod block;
pub mod block_reward;
pub mod collector;
pub mod config;
pub mod consumer;
pub mod hex_text;
pub mod ledger;
pub mod message;
pub mod namespace;
pub mod persistence;
pub mod producer;
pub mod script_sig;
pub mod supervisor;
pub mod transaction;
