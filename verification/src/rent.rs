//! What it costs to keep a record on the ledger.
//!
//! The host decides what balance keeps a record of a given length. The
//! programs take that balance from whoever runs them, for each of the two
//! kinds of record they create. The default rent is at hand for whoever has
//! no host to ask.

use vstd::prelude::*;

verus! {

/// The longest data a record may hold, in bytes.
pub const MAX_PERMITTED_DATA_LENGTH: usize = 10485760;

/// The balance that keeps a record of `data_len` bytes on the ledger under
/// the default rent: 6960 lamports for each byte of data and of the 128
/// bytes that every record takes besides.
pub open spec fn minimum_balance_spec(data_len: nat) -> nat {
    (128 + data_len) * 6960
}

/// The balances that keep the program's records on the ledger, as the host
/// charges them: one for a counter record and one for a guard record.
#[derive(Clone, Copy, Debug, PartialEq, Eq, Structural)]
pub struct RentExemption {
    pub counter: u64,
    pub has_incremented: u64,
}

/// Calls `Rent::minimum_balance` of `solana_program` on the default rent,
/// which charges the default rate for each byte of the data and of a fixed
/// overhead, and panics past the longest permitted data.
#[verifier::external_body]
fn default_minimum_balance(data_len: usize) -> (r: u64)
    requires
        data_len <= MAX_PERMITTED_DATA_LENGTH,
    ensures
        r == minimum_balance_spec(data_len as nat),
{
    solana_program::rent::Rent::default().minimum_balance(data_len)
}

/// The balance that keeps a record of `data_len` bytes under the default
/// rent, or `None` where the data is longer than a record may be.
pub fn minimum_balance(data_len: usize) -> (r: Option<u64>)
    ensures
        r == if data_len <= MAX_PERMITTED_DATA_LENGTH {
            Some(minimum_balance_spec(data_len as nat) as u64)
        } else {
            None
        },
        data_len <= MAX_PERMITTED_DATA_LENGTH ==> minimum_balance_spec(data_len as nat)
            <= u64::MAX,
{
    if data_len <= MAX_PERMITTED_DATA_LENGTH {
        Some(default_minimum_balance(data_len))
    } else {
        None
    }
}

/// Whether the balance keeps a record of `data_len` bytes under the default
/// rent.
pub fn is_exempt(balance: u64, data_len: usize) -> (ok: bool)
    ensures
        ok == (data_len <= MAX_PERMITTED_DATA_LENGTH && balance >= minimum_balance_spec(
            data_len as nat,
        )),
{
    match minimum_balance(data_len) {
        Some(needed) => balance >= needed,
        None => false,
    }
}

impl RentExemption {
    /// The balances under the default rent: that of 17 bytes for a counter
    /// record, and that of 9 bytes for a guard record.
    pub fn default_rent() -> (rent: RentExemption)
        ensures
            rent.counter == minimum_balance_spec(17),
            rent.has_incremented == minimum_balance_spec(9),
    {
        RentExemption {
            counter: default_minimum_balance(17),
            has_incremented: default_minimum_balance(9),
        }
    }
}

} // verus!
