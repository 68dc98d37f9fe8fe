//! Verified core of a multi-chain bingo gateway: the per-chain session
//! registry, the request-handler decisions, card extraction from receipt
//! logs and the background number submitter with its stop signal.

pub mod address;
pub mod config;
pub mod decimal;
pub mod game;
pub mod handler;
mod random;
pub mod receipt;
pub mod registry;
pub mod submitter;
