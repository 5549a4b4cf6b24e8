//! The records of each operation as another program hands them over when
//! it invokes this one.

use crate::account::{AccountInfo, AccountMeta};
use vstd::prelude::*;

verus! {

/// The records of `create`.
#[derive(Clone, Copy, Debug, PartialEq, Eq)]
pub struct Create {
    pub counter: AccountInfo,
    pub user: AccountInfo,
    pub system_program: AccountInfo,
}

/// The records of the guarded `increment`.
#[derive(Clone, Copy, Debug, PartialEq, Eq)]
pub struct Increment {
    pub counter: AccountInfo,
    pub has_incremented: AccountInfo,
    pub user: AccountInfo,
    pub system_program: AccountInfo,
}

impl Create {
    /// The records as the instruction names them: the counter writable, the
    /// requester a signer, the service read only, whatever flags the
    /// records were handed over with. `is_signer` changes nothing.
    pub fn to_account_metas(&self, is_signer: Option<bool>) -> (metas: Vec<AccountMeta>)
        ensures
            metas@ == seq![
                (AccountMeta { pubkey: self.counter.key, is_signer: false, is_writable: true }),
                (AccountMeta { pubkey: self.user.key, is_signer: true, is_writable: false }),
                (AccountMeta {
                    pubkey: self.system_program.key,
                    is_signer: false,
                    is_writable: false,
                }),
            ],
    {
        let mut metas: Vec<AccountMeta> = Vec::new();
        metas.push(AccountMeta::new(self.counter.key, false));
        metas.push(AccountMeta::new_readonly(self.user.key, true));
        metas.push(AccountMeta::new_readonly(self.system_program.key, false));
        assert(metas@ =~= seq![
            (AccountMeta { pubkey: self.counter.key, is_signer: false, is_writable: true }),
            (AccountMeta { pubkey: self.user.key, is_signer: true, is_writable: false }),
            (AccountMeta {
                pubkey: self.system_program.key,
                is_signer: false,
                is_writable: false,
            }),
        ]);
        metas
    }

    /// The records, in the instruction's order.
    pub fn to_account_infos(&self) -> (infos: Vec<AccountInfo>)
        ensures
            infos@ == seq![self.counter, self.user, self.system_program],
    {
        let mut infos: Vec<AccountInfo> = Vec::new();
        infos.push(self.counter);
        infos.push(self.user);
        infos.push(self.system_program);
        assert(infos@ =~= seq![self.counter, self.user, self.system_program]);
        infos
    }
}

impl Increment {
    /// The records as the instruction names them: the counter and the
    /// guard writable, the requester a writable signer, the service read
    /// only, whatever flags the records were handed over with. `is_signer`
    /// changes nothing.
    pub fn to_account_metas(&self, is_signer: Option<bool>) -> (metas: Vec<AccountMeta>)
        ensures
            metas@ == seq![
                (AccountMeta { pubkey: self.counter.key, is_signer: false, is_writable: true }),
                (AccountMeta {
                    pubkey: self.has_incremented.key,
                    is_signer: false,
                    is_writable: true,
                }),
                (AccountMeta { pubkey: self.user.key, is_signer: true, is_writable: true }),
                (AccountMeta {
                    pubkey: self.system_program.key,
                    is_signer: false,
                    is_writable: false,
                }),
            ],
    {
        let mut metas: Vec<AccountMeta> = Vec::new();
        metas.push(AccountMeta::new(self.counter.key, false));
        metas.push(AccountMeta::new(self.has_incremented.key, false));
        metas.push(AccountMeta::new(self.user.key, true));
        metas.push(AccountMeta::new_readonly(self.system_program.key, false));
        assert(metas@ =~= seq![
            (AccountMeta { pubkey: self.counter.key, is_signer: false, is_writable: true }),
            (AccountMeta {
                pubkey: self.has_incremented.key,
                is_signer: false,
                is_writable: true,
            }),
            (AccountMeta { pubkey: self.user.key, is_signer: true, is_writable: true }),
            (AccountMeta {
                pubkey: self.system_program.key,
                is_signer: false,
                is_writable: false,
            }),
        ]);
        metas
    }

    /// The records, in the instruction's order.
    pub fn to_account_infos(&self) -> (infos: Vec<AccountInfo>)
        ensures
            infos@ == seq![self.counter, self.has_incremented, self.user, self.system_program],
    {
        let mut infos: Vec<AccountInfo> = Vec::new();
        infos.push(self.counter);
        infos.push(self.has_incremented);
        infos.push(self.user);
        infos.push(self.system_program);
        assert(infos@ =~= seq![
            self.counter,
            self.has_incremented,
            self.user,
            self.system_program,
        ]);
        infos
    }
}

} // verus!
