//! Planning side of the mystery-box contract interactor.
//!
//! The library decides what the interactor sends to the chain: who signs
//! each transaction, which contract and endpoint it reaches, the gas limit,
//! the arguments, the payment, and the outcome it expects back. It also
//! keeps the interactor's persisted state (the deployed contract's address
//! and the token collection). Sending, waiting and file access stay with
//! the caller.
#![allow(non_snake_case)]

pub mod address;
pub mod state;
pub mod reward;
pub mod transaction;
pub mod interact;
pub mod laws;
