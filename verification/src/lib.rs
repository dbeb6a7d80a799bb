//! The decision core of two escrow programs that live on a ledger: a prize
//! pool that pays fixed shares to three winners, and a staking engine that
//! locks tokens for a duration and releases a reward at maturity.
//!
//! A handler takes the request and what it reads of the accounts supplied
//! with it, as plain values, and answers with a rejection or with a
//! [`account::Commit`]: the calls to other programs, the balance movement and
//! the record write that the host has to carry out, all or nothing. Nothing
//! is changed by the handler itself, so a rejected request leaves no trace.
//!
//! - [`error`]: why a request is rejected.
//! - [`pubkey`]: account identifiers and the derivation of record addresses.
//! - [`codec`]: the stored form of integers, flags and identifiers.
//! - [`state`]: the two records, their layout and their transitions.
//! - [`instruction`]: the requests and their wire form.
//! - [`account`]: the accounts of a request and the commit that answers it.
//! - [`program`]: the calls to the token program and the system program.
//! - [`processor`]: the handlers of the staking program.
//! - [`prize`]: the handlers of the prize-pool program.
//! - [`laws`]: what holds of all of these, whatever the request.
//!
//! The ledger's own libraries are called where the programs depend on them:
//! `solana_program` derives addresses and builds the instruction that
//! creates an account, `spl_token` builds transfers, `borsh` reads and writes
//! integers and flags. What is claimed of each call is written at the
//! function that makes it, which is marked `external_body`; everything else
//! is proved.

pub mod account;
pub mod codec;
pub mod error;
pub mod instruction;
pub mod laws;
pub mod prize;
pub mod processor;
pub mod program;
pub mod pubkey;
pub mod state;

pub use error::PrizeError;
pub use instruction::StakeInstruction;
pub use pubkey::Address;
pub use state::StakeState;
