//! Small operations on byte strings that the layouts share.

use vstd::prelude::*;

verus! {

/// A copy of the bytes.
pub fn copy_bytes(bytes: &[u8]) -> (r: Vec<u8>)
    ensures
        r@ == bytes@,
{
    let mut r: Vec<u8> = Vec::new();
    let mut i: usize = 0;
    while i < bytes.len()
        invariant
            i <= bytes.len(),
            r@ == bytes@.subrange(0, i as int),
        decreases bytes.len() - i,
    {
        r.push(bytes[i]);
        i += 1;
        assert(r@ =~= bytes@.subrange(0, i as int));
    }
    assert(bytes@.subrange(0, i as int) =~= bytes@);
    r
}

/// Whether the buffer begins with the eight bytes of the tag.
pub fn has_tag(buf: &[u8], tag: &[u8; 8]) -> (b: bool)
    ensures
        b == (buf@.len() >= 8 && buf@.subrange(0, 8) == tag@),
{
    if buf.len() < 8 {
        return false;
    }
    let mut i: usize = 0;
    while i < 8
        invariant
            i <= 8,
            8 <= buf.len(),
            forall|j: int| 0 <= j < i ==> buf[j] == tag[j],
        decreases 8 - i,
    {
        if buf[i] != tag[i] {
            assert(buf@.subrange(0, 8)[i as int] != tag@[i as int]);
            return false;
        }
        i += 1;
    }
    assert(buf@.subrange(0, 8) =~= tag@);
    true
}

/// Appends the eight bytes of the tag to the writer.
pub fn push_tag(writer: &mut Vec<u8>, tag: &[u8; 8])
    ensures
        final(writer)@ == old(writer)@ + tag@,
{
    let mut i: usize = 0;
    while i < 8
        invariant
            i <= 8,
            writer@ == old(writer)@ + tag@.subrange(0, i as int),
        decreases 8 - i,
    {
        writer.push(tag[i]);
        i += 1;
        assert(writer@ =~= old(writer)@ + tag@.subrange(0, i as int));
    }
    assert(tag@.subrange(0, 8) =~= tag@);
}

} // verus!
