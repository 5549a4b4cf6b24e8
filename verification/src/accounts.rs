//! The records of each operation as a client lists them: by address, in
//! the order in which the operation expects them.

use crate::account::AccountMeta;
use crate::address::Address;
use vstd::prelude::*;

verus! {

/// The records of `create`.
#[derive(Clone, Copy, Debug, PartialEq, Eq)]
pub struct Create {
    pub counter: Address,
    pub user: Address,
    pub system_program: Address,
}

/// The records of the guarded `increment`.
#[derive(Clone, Copy, Debug, PartialEq, Eq)]
pub struct Increment {
    pub counter: Address,
    pub has_incremented: Address,
    pub user: Address,
    pub system_program: Address,
}

/// The records of the unrestricted `increment`.
#[derive(Clone, Copy, Debug, PartialEq, Eq)]
pub struct IncrementAny {
    pub counter: Address,
}

impl Create {
    /// Appends the addresses, in order, to the writer.
    pub fn serialize(&self, writer: &mut Vec<u8>)
        ensures
            final(writer)@ == old(writer)@ + self.counter@ + self.user@ + self.system_program@,
    {
        self.counter.serialize(writer);
        self.user.serialize(writer);
        self.system_program.serialize(writer);
    }

    /// The records as the instruction names them: the counter writable, the
    /// requester a signer, the service read only. `is_signer` changes
    /// nothing.
    pub fn to_account_metas(&self, is_signer: Option<bool>) -> (metas: Vec<AccountMeta>)
        ensures
            metas@ == seq![
                (AccountMeta { pubkey: self.counter, is_signer: false, is_writable: true }),
                (AccountMeta { pubkey: self.user, is_signer: true, is_writable: false }),
                (AccountMeta { pubkey: self.system_program, is_signer: false, is_writable: false }),
            ],
    {
        let mut metas: Vec<AccountMeta> = Vec::new();
        metas.push(AccountMeta::new(self.counter, false));
        metas.push(AccountMeta::new_readonly(self.user, true));
        metas.push(AccountMeta::new_readonly(self.system_program, false));
        assert(metas@ =~= seq![
            (AccountMeta { pubkey: self.counter, is_signer: false, is_writable: true }),
            (AccountMeta { pubkey: self.user, is_signer: true, is_writable: false }),
            (AccountMeta { pubkey: self.system_program, is_signer: false, is_writable: false }),
        ]);
        metas
    }
}

impl Increment {
    /// Appends the addresses, in order, to the writer.
    pub fn serialize(&self, writer: &mut Vec<u8>)
        ensures
            final(writer)@ == old(writer)@ + self.counter@ + self.has_incremented@ + self.user@
                + self.system_program@,
    {
        self.counter.serialize(writer);
        self.has_incremented.serialize(writer);
        self.user.serialize(writer);
        self.system_program.serialize(writer);
    }

    /// The records as the instruction names them: the counter and the
    /// guard writable, the requester a writable signer, the service read
    /// only. `is_signer` changes nothing.
    pub fn to_account_metas(&self, is_signer: Option<bool>) -> (metas: Vec<AccountMeta>)
        ensures
            metas@ == seq![
                (AccountMeta { pubkey: self.counter, is_signer: false, is_writable: true }),
                (AccountMeta { pubkey: self.has_incremented, is_signer: false, is_writable: true }),
                (AccountMeta { pubkey: self.user, is_signer: true, is_writable: true }),
                (AccountMeta { pubkey: self.system_program, is_signer: false, is_writable: false }),
            ],
    {
        let mut metas: Vec<AccountMeta> = Vec::new();
        metas.push(AccountMeta::new(self.counter, false));
        metas.push(AccountMeta::new(self.has_incremented, false));
        metas.push(AccountMeta::new(self.user, true));
        metas.push(AccountMeta::new_readonly(self.system_program, false));
        assert(metas@ =~= seq![
            (AccountMeta { pubkey: self.counter, is_signer: false, is_writable: true }),
            (AccountMeta { pubkey: self.has_incremented, is_signer: false, is_writable: true }),
            (AccountMeta { pubkey: self.user, is_signer: true, is_writable: true }),
            (AccountMeta { pubkey: self.system_program, is_signer: false, is_writable: false }),
        ]);
        metas
    }
}

impl IncrementAny {
    /// Appends the address to the writer.
    pub fn serialize(&self, writer: &mut Vec<u8>)
        ensures
            final(writer)@ == old(writer)@ + self.counter@,
    {
        self.counter.serialize(writer);
    }

    /// The record as the instruction names it: the counter, writable.
    /// `is_signer` changes nothing.
    pub fn to_account_metas(&self, is_signer: Option<bool>) -> (metas: Vec<AccountMeta>)
        ensures
            metas@ == seq![
                (AccountMeta { pubkey: self.counter, is_signer: false, is_writable: true }),
            ],
    {
        let mut metas: Vec<AccountMeta> = Vec::new();
        metas.push(AccountMeta::new(self.counter, false));
        assert(metas@ =~= seq![
            (AccountMeta { pubkey: self.counter, is_signer: false, is_writable: true }),
        ]);
        metas
    }
}

} // verus!
