//! What the ledger keeps at an address, and how an instruction refers to it.

use crate::address::Address;
use crate::bytes::copy_bytes;
use vstd::prelude::*;

verus! {

/// A record as an instruction sees it: its address, whether its owner
/// signed, and whether the instruction may change it.
#[derive(Clone, Copy, Debug, PartialEq, Eq)]
pub struct AccountInfo {
    pub key: Address,
    pub is_signer: bool,
    pub is_writable: bool,
}

/// A record as a client names it when it builds an instruction.
#[derive(Clone, Copy, Debug, PartialEq, Eq)]
pub struct AccountMeta {
    pub pubkey: Address,
    pub is_signer: bool,
    pub is_writable: bool,
}

/// What the ledger keeps at one address.
#[derive(Debug, PartialEq, Eq)]
pub struct Account {
    pub lamports: u64,
    pub owner: Address,
    pub data: Vec<u8>,
}

/// The mathematical content of an [`Account`].
pub struct AccountState {
    pub lamports: u64,
    pub owner: Seq<u8>,
    pub data: Seq<u8>,
}

/// The address of the resource-allocation service, which owns every address
/// that holds no record: 32 zero bytes.
pub open spec fn system_program_id() -> Seq<u8> {
    Seq::new(32, |i: int| 0u8)
}

impl AccountState {
    /// What an address holds that nothing was ever stored at.
    pub open spec fn absent() -> AccountState {
        AccountState { lamports: 0, owner: system_program_id(), data: Seq::empty() }
    }

    /// Whether this is a record: whether it holds data or has an owner
    /// other than the resource-allocation service.
    pub open spec fn is_record(self) -> bool {
        self.data.len() > 0 || self.owner != system_program_id()
    }
}

impl View for Account {
    type V = AccountState;

    open spec fn view(&self) -> AccountState {
        AccountState { lamports: self.lamports, owner: self.owner@, data: self.data@ }
    }
}

impl AccountInfo {
    /// The record as a client would name it, with the same flags.
    pub open spec fn meta(self) -> AccountMeta {
        AccountMeta {
            pubkey: self.key,
            is_signer: self.is_signer,
            is_writable: self.is_writable,
        }
    }

    /// The record as a client would name it, with the same flags.
    pub fn to_account_meta(&self) -> (m: AccountMeta)
        ensures
            m == self.meta(),
    {
        if self.is_writable {
            AccountMeta::new(self.key, self.is_signer)
        } else {
            AccountMeta::new_readonly(self.key, self.is_signer)
        }
    }
}

impl AccountMeta {
    /// A record that the instruction may change.
    pub fn new(pubkey: Address, is_signer: bool) -> (m: AccountMeta)
        ensures
            m == (AccountMeta { pubkey, is_signer, is_writable: true }),
    {
        AccountMeta { pubkey, is_signer, is_writable: true }
    }

    /// A record that the instruction only reads.
    pub fn new_readonly(pubkey: Address, is_signer: bool) -> (m: AccountMeta)
        ensures
            m == (AccountMeta { pubkey, is_signer, is_writable: false }),
    {
        AccountMeta { pubkey, is_signer, is_writable: false }
    }

    /// The record as the instruction will see it.
    pub fn to_account_info(&self) -> (info: AccountInfo)
        ensures
            info == (AccountInfo {
                key: self.pubkey,
                is_signer: self.is_signer,
                is_writable: self.is_writable,
            }),
    {
        AccountInfo { key: self.pubkey, is_signer: self.is_signer, is_writable: self.is_writable }
    }
}

/// The address of the resource-allocation service.
pub fn system_program() -> (id: Address)
    ensures
        id@ == system_program_id(),
{
    let id = Address { bytes: [0u8; 32] };
    assert(id@ =~= system_program_id());
    id
}

impl Account {
    /// What an address holds that nothing was ever stored at.
    pub fn absent() -> (a: Account)
        ensures
            a@ == AccountState::absent(),
    {
        Account { lamports: 0, owner: system_program(), data: Vec::new() }
    }

    /// A copy of the account.
    pub fn duplicate(&self) -> (a: Account)
        ensures
            a@ == self@,
            a.owner == self.owner,
    {
        Account {
            lamports: self.lamports,
            owner: self.owner,
            data: copy_bytes(self.data.as_slice()),
        }
    }

    /// Whether this is a record: whether it holds data or has an owner
    /// other than the resource-allocation service.
    pub fn is_record(&self) -> (b: bool)
        ensures
            b == self@.is_record(),
    {
        self.data.len() > 0 || self.owner != system_program()
    }
}

} // verus!
