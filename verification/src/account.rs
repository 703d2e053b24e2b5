//! An account as an operation sees it.

use vstd::prelude::*;
use crate::address::{same_address, Address};

verus! {

/// What the ledger tells of one account handed to an operation.
#[derive(Clone, Debug, PartialEq, Eq)]
pub struct Account {
    /// Where the account lives.
    pub address: Address,
    /// The program that owns the account.
    pub owner: Address,
    /// The balance of the account, in lamports.
    pub lamports: u64,
    /// The bytes stored in the account.
    pub data: Vec<u8>,
    /// Whether the account signed the transaction.
    pub is_signer: bool,
}

impl Account {
    /// The address of the account.
    pub fn address(&self) -> (r: &Address)
        ensures
            *r == self.address,
    {
        &self.address
    }

    /// Whether the account signed the transaction.
    pub fn is_signer(&self) -> (r: bool)
        ensures
            r == self.is_signer,
    {
        self.is_signer
    }

    /// Whether `program` owns the account.
    pub fn owned_by(&self, program: &Address) -> (r: bool)
        ensures
            r == (self.owner@ == program@),
    {
        same_address(&self.owner, program)
    }

    /// The number of bytes stored in the account.
    pub fn data_len(&self) -> (r: usize)
        ensures
            r == self.data@.len(),
    {
        self.data.len()
    }

    /// Whether the account stores no bytes.
    pub fn is_data_empty(&self) -> (r: bool)
        ensures
            r == (self.data@.len() == 0),
    {
        self.data.len() == 0
    }

    /// The balance of the account, in lamports.
    pub fn lamports(&self) -> (r: u64)
        ensures
            r == self.lamports,
    {
        self.lamports
    }
}

/// Whether `accounts` can be the accounts of one transaction: the ledger
/// hands out every account once, so two entries with one address are one and
/// the same account.
pub open spec fn consistent(accounts: Seq<Account>) -> bool {
    forall|i: int, j: int|
        0 <= i < accounts.len() && 0 <= j < accounts.len() && accounts[i].address == accounts[j].address
            ==> accounts[i] == accounts[j]
}

} // verus!
