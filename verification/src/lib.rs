//! Scenarios that put the lifecycle of an on-chain program (staging a buffer,
//! deploying, upgrading, invoking, closing) and the durable nonce of a ledger
//! to the test, with transactions that land in the same slot or a given number
//! of slots apart.
//!
//! A scenario is a list of steps ([`ledgers`], [`plan`]). A run goes through
//! the steps and decides what each outcome means ([`run`]); the caller talks
//! to the ledger. The transactions of the steps are built and signed here
//! ([`programs`], [`assembler`], [`accounts`]), on top of the calls into
//! `solana_sdk` ([`sdk`]). The wait between two steps is decided by
//! [`slots`], the use of the nonce by [`nonce`].

pub mod accounts;
pub mod assembler;
pub mod ledgers;
pub mod nonce;
pub mod plan;
pub mod programs;
pub mod run;
pub mod sdk;
pub mod slots;
pub mod types;
