//! A raffle whose lifecycle is a small state machine: a creator escrows a
//! prize token, participants pay a flat fee to enter, and the raffle ends
//! either with a draw that releases the prize or with a cancellation.
//!
//! Every operation is a function on plain values. Value transfers are never
//! executed here: the caller asks which transfer an operation calls for,
//! executes it, and hands its outcome to the operation, which then either
//! takes effect as a whole or leaves the raffle untouched.

pub mod error;
pub mod identity;
pub mod selector;
pub mod transfer;
pub mod ledger;
pub mod model;
pub mod raffle;
pub mod laws;
