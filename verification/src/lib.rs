//! The decisions behind a command line client for stake pools.
//!
//! Every command of the client reads accounts from a cluster, decides what to
//! do, and sends transactions. The reading, signing and sending belong to the
//! program around this library. What is decided stands here: which account a
//! command works on, when it refuses, which instructions a transaction holds,
//! who signs it and how much its payer must own.
pub mod address;
pub mod config;
pub mod create;
pub mod deposit;
pub mod error;
pub mod fees;
pub mod instruction;
pub mod list;
pub mod manage;
pub mod options;
pub mod programs;
pub mod ranking;
pub mod selection;
pub mod state;
pub mod text;
pub mod token_account;
pub mod transaction;
pub mod update;
pub mod validators;
pub mod withdraw;
