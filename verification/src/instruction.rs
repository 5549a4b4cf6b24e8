//! The wire form of the instructions.
//!
//! An instruction's payload is an eight-byte opcode followed by the
//! operation's arguments, each of fixed width and little-endian.

use crate::bytes::{has_tag, push_tag};
use crate::error::ErrorCode;
use vstd::prelude::*;
use vstd::slice::slice_subrange;

verus! {

/// The operation that a payload names.
#[derive(Clone, Copy, Debug, PartialEq, Eq, Structural)]
pub enum Opcode {
    /// The reserved operation that serves the program's description.
    Introspection,
    Create,
    Increment,
}

/// The opcode of `create`.
pub open spec fn create_sighash() -> Seq<u8> {
    seq![24u8, 30u8, 200u8, 40u8, 5u8, 28u8, 7u8, 119u8]
}

/// The opcode of `increment`.
pub open spec fn increment_sighash() -> Seq<u8> {
    seq![11u8, 18u8, 104u8, 9u8, 104u8, 174u8, 59u8, 33u8]
}

/// The opcode of the reserved introspection operation.
pub open spec fn introspection_tag() -> Seq<u8> {
    seq![0x40u8, 0xf4u8, 0xbcu8, 0x78u8, 0xa7u8, 0xe9u8, 0x69u8, 0x0au8]
}

/// The operation named by the first eight bytes of the payload. A payload
/// shorter than that, or one that names no operation, is malformed.
pub open spec fn route_spec(data: Seq<u8>) -> Result<Opcode, ErrorCode> {
    if data.len() < 8 {
        Err(ErrorCode::MalformedInstruction)
    } else if data.subrange(0, 8) == introspection_tag() {
        Ok(Opcode::Introspection)
    } else if data.subrange(0, 8) == create_sighash() {
        Ok(Opcode::Create)
    } else if data.subrange(0, 8) == increment_sighash() {
        Ok(Opcode::Increment)
    } else {
        Err(ErrorCode::MalformedInstruction)
    }
}

/// What follows the opcode in a payload.
pub open spec fn arguments_spec(data: Seq<u8>) -> Seq<u8> {
    data.subrange(8, data.len() as int)
}

pub fn create_opcode() -> (tag: [u8; 8])
    ensures
        tag@ == create_sighash(),
{
    let tag: [u8; 8] = [24, 30, 200, 40, 5, 28, 7, 119];
    assert(tag@ =~= create_sighash());
    tag
}

pub fn increment_opcode() -> (tag: [u8; 8])
    ensures
        tag@ == increment_sighash(),
{
    let tag: [u8; 8] = [11, 18, 104, 9, 104, 174, 59, 33];
    assert(tag@ =~= increment_sighash());
    tag
}

pub fn introspection_opcode() -> (tag: [u8; 8])
    ensures
        tag@ == introspection_tag(),
{
    let tag: [u8; 8] = [0x40, 0xf4, 0xbc, 0x78, 0xa7, 0xe9, 0x69, 0x0a];
    assert(tag@ =~= introspection_tag());
    tag
}

/// The operation that the payload names.
pub fn route(data: &[u8]) -> (r: Result<Opcode, ErrorCode>)
    ensures
        r == route_spec(data@),
{
    if data.len() < 8 {
        Err(ErrorCode::MalformedInstruction)
    } else if has_tag(data, &introspection_opcode()) {
        Ok(Opcode::Introspection)
    } else if has_tag(data, &create_opcode()) {
        Ok(Opcode::Create)
    } else if has_tag(data, &increment_opcode()) {
        Ok(Opcode::Increment)
    } else {
        Err(ErrorCode::MalformedInstruction)
    }
}

/// What follows the opcode in the payload.
pub fn arguments(data: &[u8]) -> (rest: &[u8])
    requires
        data@.len() >= 8,
    ensures
        rest@ == arguments_spec(data@),
{
    slice_subrange(data, 8, data.len())
}

/// The arguments of `create`: the nonce of the counter's address.
#[derive(Clone, Copy, Debug, PartialEq, Eq, Structural)]
pub struct Create {
    pub bump: u8,
}

/// The arguments of the guarded `increment`: the nonce of the guard's
/// address.
#[derive(Clone, Copy, Debug, PartialEq, Eq, Structural)]
pub struct Increment {
    pub _bump: u8,
}

/// The arguments of the unrestricted `increment`: none.
#[derive(Clone, Copy, Debug, PartialEq, Eq, Structural)]
pub struct IncrementAny {}

impl Create {
    /// The arguments as bytes.
    pub open spec fn payload(self) -> Seq<u8> {
        seq![self.bump]
    }

    /// The arguments read from the front of the bytes.
    pub open spec fn decode(bytes: Seq<u8>) -> Option<Create> {
        if bytes.len() >= 1 {
            Some(Create { bump: bytes[0] })
        } else {
            None
        }
    }

    /// The payload of the instruction: opcode, then arguments.
    pub open spec fn encoding(self) -> Seq<u8> {
        create_sighash() + self.payload()
    }

    /// Appends the arguments to the writer.
    pub fn serialize(&self, writer: &mut Vec<u8>)
        ensures
            final(writer)@ == old(writer)@ + self.payload(),
    {
        writer.push(self.bump);
        assert(writer@ =~= old(writer)@ + self.payload());
    }

    /// Reads the arguments from the front of the buffer.
    pub fn deserialize(buf: &[u8]) -> (r: Option<Create>)
        ensures
            r == Self::decode(buf@),
    {
        if buf.len() >= 1 {
            Some(Create { bump: buf[0] })
        } else {
            None
        }
    }

    /// The payload of the instruction.
    pub fn data(&self) -> (d: Vec<u8>)
        ensures
            d@ == self.encoding(),
    {
        let mut d: Vec<u8> = Vec::new();
        push_tag(&mut d, &create_opcode());
        self.serialize(&mut d);
        assert(d@ =~= self.encoding());
        d
    }
}

impl Increment {
    /// The arguments as bytes.
    pub open spec fn payload(self) -> Seq<u8> {
        seq![self._bump]
    }

    /// The arguments read from the front of the bytes.
    pub open spec fn decode(bytes: Seq<u8>) -> Option<Increment> {
        if bytes.len() >= 1 {
            Some(Increment { _bump: bytes[0] })
        } else {
            None
        }
    }

    /// The payload of the instruction: opcode, then arguments.
    pub open spec fn encoding(self) -> Seq<u8> {
        increment_sighash() + self.payload()
    }

    /// Appends the arguments to the writer.
    pub fn serialize(&self, writer: &mut Vec<u8>)
        ensures
            final(writer)@ == old(writer)@ + self.payload(),
    {
        writer.push(self._bump);
        assert(writer@ =~= old(writer)@ + self.payload());
    }

    /// Reads the arguments from the front of the buffer.
    pub fn deserialize(buf: &[u8]) -> (r: Option<Increment>)
        ensures
            r == Self::decode(buf@),
    {
        if buf.len() >= 1 {
            Some(Increment { _bump: buf[0] })
        } else {
            None
        }
    }

    /// The payload of the instruction.
    pub fn data(&self) -> (d: Vec<u8>)
        ensures
            d@ == self.encoding(),
    {
        let mut d: Vec<u8> = Vec::new();
        push_tag(&mut d, &increment_opcode());
        self.serialize(&mut d);
        assert(d@ =~= self.encoding());
        d
    }
}

impl IncrementAny {
    /// The payload of the instruction: the opcode alone.
    pub open spec fn encoding(self) -> Seq<u8> {
        increment_sighash()
    }

    /// The payload of the instruction.
    pub fn data(&self) -> (d: Vec<u8>)
        ensures
            d@ == self.encoding(),
    {
        let mut d: Vec<u8> = Vec::new();
        push_tag(&mut d, &increment_opcode());
        assert(d@ =~= self.encoding());
        d
    }
}

/// A payload built from arguments names its operation and gives the
/// arguments back.
pub proof fn payload_roundtrip(create: Create, increment: Increment)
    ensures
        route_spec(create.encoding()) == Ok::<Opcode, ErrorCode>(Opcode::Create),
        Create::decode(arguments_spec(create.encoding())) == Some(create),
        route_spec(increment.encoding()) == Ok::<Opcode, ErrorCode>(Opcode::Increment),
        Increment::decode(arguments_spec(increment.encoding())) == Some(increment),
        route_spec((IncrementAny {  }).encoding()) == Ok::<Opcode, ErrorCode>(Opcode::Increment),
{
    let c = create.encoding();
    assert(c.subrange(0, 8) =~= create_sighash());
    assert(arguments_spec(c) =~= create.payload());
    assert(create_sighash()[0] != introspection_tag()[0]);
    let i = increment.encoding();
    assert(i.subrange(0, 8) =~= increment_sighash());
    assert(arguments_spec(i) =~= increment.payload());
    assert(increment_sighash()[0] != introspection_tag()[0]);
    assert(increment_sighash()[0] != create_sighash()[0]);
    let a = (IncrementAny {  }).encoding();
    assert(a.subrange(0, 8) =~= increment_sighash());
}

} // verus!
