//! The ways in which an instruction can be refused.

use vstd::prelude::*;

verus! {

/// Why an instruction was refused. A refused instruction changes nothing.
#[derive(Clone, Copy, Debug, PartialEq, Eq, Structural)]
pub enum ErrorCode {
    /// The payload is shorter than an opcode, names no known operation, or
    /// does not hold the operation's arguments.
    MalformedInstruction,
    /// The payload names the reserved introspection operation, which is
    /// served elsewhere.
    IntrospectionNotHandled,
    /// Fewer records are referenced than the operation needs.
    NotEnoughAccounts,
    /// A supplied address is not the one its seeds and nonce derive.
    InvalidDerivation,
    /// No nonce derives a usable address from the seeds.
    DerivationExhausted,
    /// A record is already present where one was to be created.
    RecordAlreadyExists,
    /// A record is not owned by this program.
    WrongOwner,
    /// A record that would be changed was not referenced as writable.
    NotWritable,
    /// The requester did not sign.
    NotASigner,
    /// The resource-allocation service is not the one referenced.
    InvalidProgramId,
    /// The payer cannot cover the new record's persistence cost.
    InsufficientFunding,
    /// The counter cannot be incremented within 64 bits.
    Overflow,
    /// A record's data is shorter than a type tag.
    AccountDiscriminatorNotFound,
    /// A record's type tag is that of another kind of record.
    AccountDiscriminatorMismatch,
    /// A record's data does not hold the fields of its kind.
    AccountDidNotDeserialize,
}

} // verus!
