//! Addresses of records, and their derivation from seeds.
//!
//! A derived address is computed from seed bytes, a one-byte nonce and the
//! identity of the deriving program. Only that program can create a record
//! there, so a record found at a derived address vouches for its seeds.

use crate::bytes::copy_bytes;
use crate::error::ErrorCode;
use vstd::prelude::*;
use vstd::std_specs::cmp::PartialEqSpecImpl;

verus! {

/// The address of a record or an identity: 32 bytes.
#[derive(Clone, Copy, Debug)]
pub struct Address {
    pub bytes: [u8; 32],
}

impl View for Address {
    type V = Seq<u8>;

    open spec fn view(&self) -> Seq<u8> {
        self.bytes@
    }
}

impl PartialEq for Address {
    fn eq(&self, other: &Address) -> (r: bool) {
        let mut i: usize = 0;
        while i < 32
            invariant
                i <= 32,
                forall|j: int| 0 <= j < i ==> self.bytes[j] == other.bytes[j],
            decreases 32 - i,
        {
            if self.bytes[i] != other.bytes[i] {
                return false;
            }
            i += 1;
        }
        assert(self.bytes@ =~= other.bytes@);
        true
    }
}

impl PartialEqSpecImpl for Address {
    open spec fn obeys_eq_spec() -> bool {
        true
    }

    open spec fn eq_spec(&self, other: &Address) -> bool {
        self@ == other@
    }
}

impl Eq for Address {}

/// Addresses of the same bytes are the same address.
pub proof fn same_bytes_same_address(a: Address, b: Address)
    requires
        a@ == b@,
    ensures
        a == b,
{
    assert forall|i: int| 0 <= i < 32 implies a.bytes[i] == b.bytes[i] by {
        assert(a.bytes@[i] == b.bytes@[i]);
    }
    assert(a.bytes =~= b.bytes);
}

/// The address that `solana_program`'s `Pubkey::create_program_address`
/// returns for the seeds (the nonce, where there is one, being the last
/// of them) and the program, or `None` where it returns an error.
pub uninterp spec fn program_address(seeds: Seq<Seq<u8>>, program_id: Seq<u8>) -> Option<Seq<u8>>;

/// The seeds followed by the nonce as a seed of one byte.
pub open spec fn with_nonce(seeds: Seq<Seq<u8>>, nonce: u8) -> Seq<Seq<u8>> {
    seeds.push(seq![nonce])
}

/// The address derived from seeds, nonce and program, if there is one.
pub open spec fn derived(seeds: Seq<Seq<u8>>, nonce: u8, program_id: Seq<u8>) -> Option<Seq<u8>> {
    program_address(with_nonce(seeds, nonce), program_id)
}

/// The nonce is the greatest one, zero apart, that derives an address.
pub open spec fn is_canonical(seeds: Seq<Seq<u8>>, nonce: u8, program_id: Seq<u8>) -> bool {
    &&& nonce >= 1
    &&& derived(seeds, nonce, program_id) is Some
    &&& forall|b: u8| nonce < b ==> (#[trigger] derived(seeds, b, program_id)) is None
}

/// The nonce is the canonical one of the seeds, and derives the address.
pub open spec fn is_canonical_address(
    seeds: Seq<Seq<u8>>,
    nonce: u8,
    program_id: Seq<u8>,
    address: Seq<u8>,
) -> bool {
    is_canonical(seeds, nonce, program_id) && derived(seeds, nonce, program_id) == Some(address)
}

/// No nonce but possibly zero derives an address.
pub open spec fn exhausted(seeds: Seq<Seq<u8>>, program_id: Seq<u8>) -> bool {
    forall|b: u8| 1 <= b ==> (#[trigger] derived(seeds, b, program_id)) is None
}

/// The bytes of the address, where there is one.
pub open spec fn option_view(a: Option<Address>) -> Option<Seq<u8>> {
    match a {
        Some(a) => Some(a@),
        None => None,
    }
}

/// What a list of seeds holds: the bytes of each.
pub open spec fn seeds_view(seeds: Seq<Vec<u8>>) -> Seq<Seq<u8>> {
    Seq::new(seeds.len(), |i: int| seeds[i]@)
}

/// Calls `Pubkey::create_program_address` of `solana_program`. The contract
/// only names the outcome: the same seeds and program always give the same
/// address or the same refusal.
#[verifier::external_body]
fn create_program_address(seeds: &Vec<Vec<u8>>, program_id: &Address) -> (r: Option<Address>)
    ensures
        option_view(r) == program_address(seeds_view(seeds@), program_id@),
{
    let parts: Vec<&[u8]> = seeds.iter().map(|s| s.as_slice()).collect();
    let id = solana_program::pubkey::Pubkey::new_from_array(program_id.bytes);
    match solana_program::pubkey::Pubkey::create_program_address(&parts, &id) {
        Ok(key) => Some(Address { bytes: key.to_bytes() }),
        Err(_) => None,
    }
}

/// Calls `Pubkey::try_find_program_address` of `solana_program`, which tries
/// the nonces from 255 down to 1 as a last seed and stops at the first that
/// `create_program_address` accepts. It returns that address and nonce, or
/// `None` where none of them is accepted.
#[verifier::external_body]
fn try_find_program_address(seeds: &Vec<Vec<u8>>, program_id: &Address) -> (r: Option<
    (Address, u8),
>)
    ensures
        match r {
            Some((a, nonce)) => is_canonical(seeds_view(seeds@), nonce, program_id@) && derived(
                seeds_view(seeds@),
                nonce,
                program_id@,
            ) == Some(a@),
            None => exhausted(seeds_view(seeds@), program_id@),
        },
{
    let parts: Vec<&[u8]> = seeds.iter().map(|s| s.as_slice()).collect();
    let id = solana_program::pubkey::Pubkey::new_from_array(program_id.bytes);
    match solana_program::pubkey::Pubkey::try_find_program_address(&parts, &id) {
        Some((key, nonce)) => Some((Address { bytes: key.to_bytes() }, nonce)),
        None => None,
    }
}

/// The seeds followed by the nonce as a seed of its own.
fn seeds_with_nonce(seeds: &Vec<Vec<u8>>, nonce: u8) -> (r: Vec<Vec<u8>>)
    ensures
        seeds_view(r@) == with_nonce(seeds_view(seeds@), nonce),
{
    let mut r: Vec<Vec<u8>> = Vec::new();
    let mut i: usize = 0;
    while i < seeds.len()
        invariant
            i <= seeds.len(),
            r.len() == i,
            forall|j: int| 0 <= j < i ==> r[j]@ == seeds[j]@,
        decreases seeds.len() - i,
    {
        r.push(copy_bytes(seeds[i].as_slice()));
        i += 1;
    }
    let mut last: Vec<u8> = Vec::new();
    last.push(nonce);
    assert(last@ =~= seq![nonce]);
    r.push(last);
    assert(seeds_view(r@) =~= with_nonce(seeds_view(seeds@), nonce));
    r
}

/// Two nonces that are both canonical for the same seeds are one nonce.
pub proof fn canonical_is_unique(seeds: Seq<Seq<u8>>, program_id: Seq<u8>, a: u8, b: u8)
    requires
        is_canonical(seeds, a, program_id),
        is_canonical(seeds, b, program_id),
    ensures
        a == b,
{
}

/// Where no nonce derives an address, none is canonical.
pub proof fn exhausted_has_no_canonical(seeds: Seq<Seq<u8>>, program_id: Seq<u8>, nonce: u8)
    requires
        exhausted(seeds, program_id),
    ensures
        !is_canonical(seeds, nonce, program_id),
{
}

/// The address derived from the seeds, the nonce and the program, or `None`
/// where they derive none.
pub fn derive(seeds: &Vec<Vec<u8>>, nonce: u8, program_id: &Address) -> (r: Option<Address>)
    ensures
        option_view(r) == derived(seeds_view(seeds@), nonce, program_id@),
{
    let all = seeds_with_nonce(seeds, nonce);
    create_program_address(&all, program_id)
}

/// Whether the address is the one that the seeds, the nonce and the program
/// derive.
pub fn verify(address: &Address, seeds: &Vec<Vec<u8>>, nonce: u8, program_id: &Address) -> (ok:
    bool)
    ensures
        ok == (derived(seeds_view(seeds@), nonce, program_id@) == Some(address@)),
{
    match derive(seeds, nonce, program_id) {
        Some(a) => a == *address,
        None => false,
    }
}

/// The canonical nonce of the seeds and the address it derives, or
/// `DerivationExhausted` where no nonce from 255 down to 1 derives one.
pub fn find(seeds: &Vec<Vec<u8>>, program_id: &Address) -> (r: Result<(Address, u8), ErrorCode>)
    ensures
        match r {
            Ok((a, nonce)) => is_canonical(seeds_view(seeds@), nonce, program_id@) && derived(
                seeds_view(seeds@),
                nonce,
                program_id@,
            ) == Some(a@),
            Err(e) => e == ErrorCode::DerivationExhausted && exhausted(
                seeds_view(seeds@),
                program_id@,
            ),
        },
{
    match try_find_program_address(seeds, program_id) {
        Some(found) => Ok(found),
        None => Err(ErrorCode::DerivationExhausted),
    }
}

/// Whether the address and the nonce are the canonical ones of the seeds.
pub fn verify_canonical(
    address: &Address,
    seeds: &Vec<Vec<u8>>,
    nonce: u8,
    program_id: &Address,
) -> (ok: bool)
    ensures
        ok == is_canonical_address(seeds_view(seeds@), nonce, program_id@, address@),
{
    match try_find_program_address(seeds, program_id) {
        Some((a, found)) => {
            proof {
                if is_canonical(seeds_view(seeds@), nonce, program_id@) {
                    canonical_is_unique(seeds_view(seeds@), program_id@, nonce, found);
                }
            }
            found == nonce && a == *address
        },
        None => {
            proof {
                exhausted_has_no_canonical(seeds_view(seeds@), program_id@, nonce);
            }
            false
        },
    }
}

impl Address {
    pub fn new_from_array(bytes: [u8; 32]) -> (a: Address)
        ensures
            a.bytes == bytes,
    {
        Address { bytes }
    }

    /// Appends the 32 bytes of the address to the writer.
    pub fn serialize(&self, writer: &mut Vec<u8>)
        ensures
            final(writer)@ == old(writer)@ + self@,
    {
        let mut i: usize = 0;
        while i < 32
            invariant
                i <= 32,
                writer@ == old(writer)@ + self@.subrange(0, i as int),
            decreases 32 - i,
        {
            writer.push(self.bytes[i]);
            i += 1;
            assert(writer@ =~= old(writer)@ + self@.subrange(0, i as int));
        }
        assert(self@.subrange(0, 32) =~= self@);
    }

    pub fn to_bytes(&self) -> (bytes: [u8; 32])
        ensures
            bytes == self.bytes,
    {
        self.bytes
    }
}

} // verus!
