//! The identity of the program.

use crate::address::Address;
use crate::error::ErrorCode;
use vstd::prelude::*;

verus! {

/// The bytes of the program's address.
pub open spec fn id_spec() -> Seq<u8> {
    seq![
        218u8, 7u8, 92u8, 178u8, 255u8, 94u8, 198u8, 129u8, 118u8, 19u8, 222u8, 83u8, 11u8, 105u8,
        42u8, 135u8, 53u8, 71u8, 119u8, 105u8, 218u8, 71u8, 67u8, 12u8, 189u8, 129u8, 84u8, 51u8,
        92u8, 74u8, 131u8, 39u8,
    ]
}

/// The program's address.
pub fn id() -> (id: Address)
    ensures
        id@ == id_spec(),
{
    let id = Address {
        bytes: [
            218, 7, 92, 178, 255, 94, 198, 129, 118, 19, 222, 83, 11, 105, 42, 135, 53, 71, 119,
            105, 218, 71, 67, 12, 189, 129, 84, 51, 92, 74, 131, 39,
        ],
    };
    assert(id@ =~= id_spec());
    id
}

/// Whether the address is the program's.
pub fn check_id(id: &Address) -> (b: bool)
    ensures
        b == (id@ == id_spec()),
{
    *id == self::id()
}

/// The program, as a type.
#[derive(Clone, Copy, Debug, PartialEq, Eq, Structural)]
pub struct IncrementOnce {}

impl IncrementOnce {
    /// The program's address.
    pub fn id() -> (id: Address)
        ensures
            id@ == id_spec(),
    {
        self::id()
    }

    /// The program holds no data, so any bytes give it back.
    pub fn try_deserialize(buf: &[u8]) -> (r: Result<IncrementOnce, ErrorCode>)
        ensures
            r == Ok::<IncrementOnce, ErrorCode>(IncrementOnce {  }),
    {
        Self::try_deserialize_unchecked(buf)
    }

    /// The program holds no data, so any bytes give it back.
    pub fn try_deserialize_unchecked(_buf: &[u8]) -> (r: Result<IncrementOnce, ErrorCode>)
        ensures
            r == Ok::<IncrementOnce, ErrorCode>(IncrementOnce {  }),
    {
        Ok(IncrementOnce {  })
    }
}

} // verus!
