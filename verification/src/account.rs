//! What the host hands over for each account of an invocation.

use vstd::prelude::*;
use crate::pubkey::Pubkey;

verus! {

/// One account as the host presents it for the length of one invocation: who
/// it is, who owns it, what the host asserts of it, and its storage region.
#[derive(Clone, Debug)]
pub struct Account {
    /// The address of the account itself.
    pub key: Pubkey,
    /// Whether the host holds proof that this account authorized the call.
    pub is_signer: bool,
    /// Whether the invocation may write to the account.
    pub is_writable: bool,
    /// The program that owns the account.
    pub owner: Pubkey,
    /// The storage region of the account.
    pub data: Vec<u8>,
}

/// An account as contracts see it: every field by its value.
pub struct AccountView {
    pub key: Seq<u8>,
    pub is_signer: bool,
    pub is_writable: bool,
    pub owner: Seq<u8>,
    pub data: Seq<u8>,
}

impl View for Account {
    type V = AccountView;

    open spec fn view(&self) -> AccountView {
        AccountView {
            key: self.key@,
            is_signer: self.is_signer,
            is_writable: self.is_writable,
            owner: self.owner@,
            data: self.data@,
        }
    }
}

/// The views of a list of accounts, in order.
pub open spec fn views(accounts: Seq<Account>) -> Seq<AccountView> {
    accounts.map_values(|a: Account| a@)
}

} // verus!
