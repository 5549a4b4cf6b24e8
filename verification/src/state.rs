//! The two kinds of record that the program keeps, and their layout.
//!
//! A record's data is an eight-byte type tag followed by its fields in
//! declaration order, each of fixed width and little-endian. The tag is
//! checked before the fields are read.

use crate::address::{seeds_view, Address};
use crate::bytes::{copy_bytes, has_tag, push_tag};
use crate::error::ErrorCode;
use crate::program::{id, id_spec};
use vstd::array::array_as_slice;
use vstd::bytes::{
    lemma_auto_spec_u64_to_from_le_bytes, spec_u64_from_le_bytes, spec_u64_to_le_bytes,
    u64_from_le_bytes, u64_to_le_bytes,
};
use vstd::prelude::*;
use vstd::slice::slice_subrange;

verus! {

/// The counter: how often it was incremented, and the nonce of its address.
#[derive(Clone, Copy, Debug, PartialEq, Eq, Structural)]
pub struct Counter {
    pub count: u64,
    pub bump: u8,
}

/// The guard of one identity. That it exists says that the identity has
/// incremented; the flag is for auditors and is never read.
#[derive(Clone, Copy, Debug, PartialEq, Eq, Structural)]
pub struct HasIncremented {
    pub has_incremented: bool,
}

impl Default for Counter {
    fn default() -> (c: Counter)
        ensures
            c == (Counter { count: 0, bump: 0 }),
    {
        Counter { count: 0, bump: 0 }
    }
}

impl Default for HasIncremented {
    fn default() -> (g: HasIncremented)
        ensures
            g == (HasIncremented { has_incremented: false }),
    {
        HasIncremented { has_incremented: false }
    }
}

impl Counter {
    /// The length of a counter record's data.
    pub const SPACE: usize = 17;

    /// The seeds of the counter's address: the word "counter".
    pub open spec fn seeds() -> Seq<Seq<u8>> {
        seq![seq![99u8, 111u8, 117u8, 110u8, 116u8, 101u8, 114u8]]
    }

    /// The seeds of the counter's address.
    pub fn seed_list() -> (seeds: Vec<Vec<u8>>)
        ensures
            seeds_view(seeds@) == Self::seeds(),
    {
        let word: [u8; 7] = [99, 111, 117, 110, 116, 101, 114];
        let mut seeds: Vec<Vec<u8>> = Vec::new();
        seeds.push(copy_bytes(array_as_slice(&word)));
        assert(seeds[0]@ =~= Self::seeds()[0]);
        assert(seeds_view(seeds@) =~= Self::seeds());
        seeds
    }

    /// The program that owns counter records.
    pub fn owner() -> (owner: Address)
        ensures
            owner@ == id_spec(),
    {
        id()
    }

    /// The type tag of counter records.
    pub open spec fn tag() -> Seq<u8> {
        seq![255u8, 176u8, 4u8, 245u8, 188u8, 253u8, 124u8, 25u8]
    }

    /// The fields as bytes: the count in eight bytes, then the nonce.
    pub open spec fn payload(self) -> Seq<u8> {
        spec_u64_to_le_bytes(self.count).push(self.bump)
    }

    /// The data of a record that holds this counter.
    pub open spec fn encoding(self) -> Seq<u8> {
        Self::tag() + self.payload()
    }

    /// The fields read from the front of the bytes; what follows them is
    /// ignored.
    pub open spec fn decode_payload(bytes: Seq<u8>) -> Option<Counter> {
        if bytes.len() >= 9 {
            Some(Counter { count: spec_u64_from_le_bytes(bytes.subrange(0, 8)), bump: bytes[8] })
        } else {
            None
        }
    }

    /// The fields read from what follows the first eight bytes.
    pub open spec fn decode_unchecked(data: Seq<u8>) -> Result<Counter, ErrorCode> {
        match Self::decode_payload(data.subrange(8, data.len() as int)) {
            Some(c) => Ok(c),
            None => Err(ErrorCode::AccountDidNotDeserialize),
        }
    }

    /// The counter that a record's data holds, once its tag is checked.
    pub open spec fn decode(data: Seq<u8>) -> Result<Counter, ErrorCode> {
        if data.len() < 8 {
            Err(ErrorCode::AccountDiscriminatorNotFound)
        } else if data.subrange(0, 8) != Self::tag() {
            Err(ErrorCode::AccountDiscriminatorMismatch)
        } else {
            Self::decode_unchecked(data)
        }
    }

    pub fn discriminator() -> (tag: [u8; 8])
        ensures
            tag@ == Self::tag(),
    {
        let tag: [u8; 8] = [255, 176, 4, 245, 188, 253, 124, 25];
        assert(tag@ =~= Self::tag());
        tag
    }

    /// Appends the fields to the writer.
    pub fn serialize(&self, writer: &mut Vec<u8>)
        ensures
            final(writer)@ == old(writer)@ + self.payload(),
    {
        let mut count = u64_to_le_bytes(self.count);
        writer.append(&mut count);
        writer.push(self.bump);
        assert(writer@ =~= old(writer)@ + self.payload());
    }

    /// Reads the fields from the front of the buffer.
    pub fn deserialize(buf: &[u8]) -> (r: Option<Counter>)
        ensures
            r == Self::decode_payload(buf@),
    {
        if buf.len() < 9 {
            return None;
        }
        let count = u64_from_le_bytes(slice_subrange(buf, 0, 8));
        Some(Counter { count, bump: buf[8] })
    }

    /// Appends the record's data, tag first, to the writer.
    pub fn try_serialize(&self, writer: &mut Vec<u8>) -> (r: Result<(), ErrorCode>)
        ensures
            r is Ok,
            final(writer)@ == old(writer)@ + self.encoding(),
    {
        let tag = Self::discriminator();
        push_tag(writer, &tag);
        self.serialize(writer);
        assert(writer@ =~= old(writer)@ + self.encoding());
        Ok(())
    }

    /// Reads a counter from a record's data after checking the type tag.
    pub fn try_deserialize(buf: &[u8]) -> (r: Result<Counter, ErrorCode>)
        ensures
            r == Self::decode(buf@),
    {
        if buf.len() < 8 {
            return Err(ErrorCode::AccountDiscriminatorNotFound);
        }
        let tag = Self::discriminator();
        if !has_tag(buf, &tag) {
            return Err(ErrorCode::AccountDiscriminatorMismatch);
        }
        Self::try_deserialize_unchecked(buf)
    }

    /// Reads a counter from a record's data without looking at the type tag.
    pub fn try_deserialize_unchecked(buf: &[u8]) -> (r: Result<Counter, ErrorCode>)
        requires
            buf@.len() >= 8,
        ensures
            r == Self::decode_unchecked(buf@),
    {
        match Self::deserialize(slice_subrange(buf, 8, buf.len())) {
            Some(c) => Ok(c),
            None => Err(ErrorCode::AccountDidNotDeserialize),
        }
    }
}

impl HasIncremented {
    /// The length of a guard record's data.
    pub const SPACE: usize = 9;

    /// The seeds of an identity's guard: the identity's address.
    pub open spec fn seeds(user: Address) -> Seq<Seq<u8>> {
        seq![user@]
    }

    /// The seeds of the identity's guard.
    pub fn seed_list(user: &Address) -> (seeds: Vec<Vec<u8>>)
        ensures
            seeds_view(seeds@) == Self::seeds(*user),
    {
        let mut seeds: Vec<Vec<u8>> = Vec::new();
        seeds.push(copy_bytes(array_as_slice(&user.bytes)));
        assert(seeds_view(seeds@) =~= Self::seeds(*user));
        seeds
    }

    /// The program that owns guard records.
    pub fn owner() -> (owner: Address)
        ensures
            owner@ == id_spec(),
    {
        id()
    }

    /// The type tag of guard records.
    pub open spec fn tag() -> Seq<u8> {
        seq![56u8, 222u8, 56u8, 247u8, 106u8, 17u8, 240u8, 42u8]
    }

    /// The flag as one byte.
    pub open spec fn payload(self) -> Seq<u8> {
        seq![if self.has_incremented { 1u8 } else { 0u8 }]
    }

    /// The data of a record that holds this guard.
    pub open spec fn encoding(self) -> Seq<u8> {
        Self::tag() + self.payload()
    }

    /// The flag read from the first byte, which must be zero or one.
    pub open spec fn decode_payload(bytes: Seq<u8>) -> Option<HasIncremented> {
        if bytes.len() >= 1 && bytes[0] == 0 {
            Some(HasIncremented { has_incremented: false })
        } else if bytes.len() >= 1 && bytes[0] == 1 {
            Some(HasIncremented { has_incremented: true })
        } else {
            None
        }
    }

    /// The flag read from what follows the first eight bytes.
    pub open spec fn decode_unchecked(data: Seq<u8>) -> Result<HasIncremented, ErrorCode> {
        match Self::decode_payload(data.subrange(8, data.len() as int)) {
            Some(g) => Ok(g),
            None => Err(ErrorCode::AccountDidNotDeserialize),
        }
    }

    /// The guard that a record's data holds, once its tag is checked.
    pub open spec fn decode(data: Seq<u8>) -> Result<HasIncremented, ErrorCode> {
        if data.len() < 8 {
            Err(ErrorCode::AccountDiscriminatorNotFound)
        } else if data.subrange(0, 8) != Self::tag() {
            Err(ErrorCode::AccountDiscriminatorMismatch)
        } else {
            Self::decode_unchecked(data)
        }
    }

    pub fn discriminator() -> (tag: [u8; 8])
        ensures
            tag@ == Self::tag(),
    {
        let tag: [u8; 8] = [56, 222, 56, 247, 106, 17, 240, 42];
        assert(tag@ =~= Self::tag());
        tag
    }

    /// Appends the flag to the writer.
    pub fn serialize(&self, writer: &mut Vec<u8>)
        ensures
            final(writer)@ == old(writer)@ + self.payload(),
    {
        if self.has_incremented {
            writer.push(1);
        } else {
            writer.push(0);
        }
        assert(writer@ =~= old(writer)@ + self.payload());
    }

    /// Reads the flag from the front of the buffer.
    pub fn deserialize(buf: &[u8]) -> (r: Option<HasIncremented>)
        ensures
            r == Self::decode_payload(buf@),
    {
        if buf.len() < 1 {
            None
        } else if buf[0] == 0 {
            Some(HasIncremented { has_incremented: false })
        } else if buf[0] == 1 {
            Some(HasIncremented { has_incremented: true })
        } else {
            None
        }
    }

    /// Appends the record's data, tag first, to the writer.
    pub fn try_serialize(&self, writer: &mut Vec<u8>) -> (r: Result<(), ErrorCode>)
        ensures
            r is Ok,
            final(writer)@ == old(writer)@ + self.encoding(),
    {
        let tag = Self::discriminator();
        push_tag(writer, &tag);
        self.serialize(writer);
        assert(writer@ =~= old(writer)@ + self.encoding());
        Ok(())
    }

    /// Reads a guard from a record's data after checking the type tag.
    pub fn try_deserialize(buf: &[u8]) -> (r: Result<HasIncremented, ErrorCode>)
        ensures
            r == Self::decode(buf@),
    {
        if buf.len() < 8 {
            return Err(ErrorCode::AccountDiscriminatorNotFound);
        }
        let tag = Self::discriminator();
        if !has_tag(buf, &tag) {
            return Err(ErrorCode::AccountDiscriminatorMismatch);
        }
        Self::try_deserialize_unchecked(buf)
    }

    /// Reads a guard from a record's data without looking at the type tag.
    pub fn try_deserialize_unchecked(buf: &[u8]) -> (r: Result<HasIncremented, ErrorCode>)
        requires
            buf@.len() >= 8,
        ensures
            r == Self::decode_unchecked(buf@),
    {
        match Self::deserialize(slice_subrange(buf, 8, buf.len())) {
            Some(g) => Ok(g),
            None => Err(ErrorCode::AccountDidNotDeserialize),
        }
    }
}

/// A counter is read back from the data it was written to.
pub proof fn counter_roundtrip(c: Counter)
    ensures
        c.encoding().len() == 17,
        Counter::decode(c.encoding()) == Ok::<Counter, ErrorCode>(c),
{
    lemma_auto_spec_u64_to_from_le_bytes();
    let data = c.encoding();
    assert(data.subrange(0, 8) =~= Counter::tag());
    let rest = data.subrange(8, data.len() as int);
    assert(rest =~= c.payload());
    assert(rest.subrange(0, 8) =~= spec_u64_to_le_bytes(c.count));
}

/// A guard is read back from the data it was written to.
pub proof fn guard_roundtrip(g: HasIncremented)
    ensures
        g.encoding().len() == 9,
        HasIncremented::decode(g.encoding()) == Ok::<HasIncremented, ErrorCode>(g),
{
    let data = g.encoding();
    assert(data.subrange(0, 8) =~= HasIncremented::tag());
    let rest = data.subrange(8, data.len() as int);
    assert(rest =~= g.payload());
}

} // verus!
