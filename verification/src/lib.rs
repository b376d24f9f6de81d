//! Strawberry OS system daemon: the verified core.

pub mod catalog;
pub mod commands;
pub mod config;
pub mod daemon;
pub mod miner;
pub mod pool;
pub mod strmap;
pub mod text;
pub mod wallet;
