//! A shared counter kept on a ledger of addressed records, with an optional
//! rule that each identity may increment it at most once.
//!
//! The rule is enforced without a lock table: an increment also creates a
//! guard record at an address derived from the caller's identity, and a record
//! can only be created where none exists yet.

pub mod account;
pub mod accounts;
pub mod address;
pub mod bytes;
pub mod cpi;
pub mod error;
pub mod increment;
pub mod increment_once;
pub mod instruction;
pub mod laws;
pub mod ledger;
pub mod program;
pub mod record;
pub mod rent;
pub mod state;
