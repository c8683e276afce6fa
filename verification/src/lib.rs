//! Token-operation orchestration for a Solana-backed HTTP service.
//!
//! The library decides which instructions a request needs, what is recorded of its
//! outcome, and what a ledger of such records says about history and balances. It does
//! no I/O: the caller probes, submits and stores, and hands the outcomes back.

pub mod address;
pub mod assembler;
pub mod blockchain;
pub mod database;
pub mod envelope;
pub mod error;
pub mod handlers;
pub mod instruction;
pub mod laws;
pub mod models;
pub mod submitter;
