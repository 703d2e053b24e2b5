//! A two-party token escrow: a maker locks token A in a vault and names the
//! amount of token B wanted in return; a taker settles the swap, or the maker
//! cancels it.
//!
//! The library decides. Every operation validates the accounts it is handed
//! and answers with the ordered list of ledger actions to perform, or with
//! the error that stops it. Performing the actions is left to the caller.

pub mod error;
pub mod address;
pub mod account;
pub mod programs;
pub mod state;
pub mod action;
pub mod rent;
pub mod helpers;
pub mod instructions;

use vstd::prelude::*;
use vstd::slice::slice_subrange;
use crate::account::Account;
use crate::action::Action;
use crate::error::ProgramError;
use crate::helpers::plan_view;
use crate::instructions::make::{make_outcome, Make};
use crate::instructions::refund::{refund_outcome, Refund};
use crate::instructions::take::{take_outcome, Take};

verus! {

/// The address of this program.
pub const ID: address::Address = [
    15, 30, 107, 20, 33, 192, 74, 7, 4, 49, 38, 92, 25, 197, 187, 238,
    25, 146, 186, 232, 175, 209, 205, 7, 142, 248, 175, 112, 71, 220, 17, 247,
];

/// What an instruction comes to: the first byte names the operation, 0 to
/// open an escrow, 1 to settle one, 2 to cancel one, and the bytes after it
/// are the operation's own; any other instruction is invalid.
pub open spec fn processed(accounts: Seq<Account>, instruction_data: Seq<u8>) -> Result<Seq<Action>, ProgramError> {
    if instruction_data.len() == 0 {
        Err(ProgramError::InvalidInstructionData)
    } else if instruction_data[0] == Make::DISCRIMINATOR {
        make_outcome(instruction_data.subrange(1, instruction_data.len() as int), accounts)
    } else if instruction_data[0] == Take::DISCRIMINATOR {
        take_outcome(accounts)
    } else if instruction_data[0] == Refund::DISCRIMINATOR {
        refund_outcome(accounts)
    } else {
        Err(ProgramError::InvalidInstructionData)
    }
}

/// Validates an instruction and plans what it asks for: the actions to
/// perform, in order, or the error that stops it. An error comes with no
/// action at all.
pub fn process_instruction(program_id: &address::Address, accounts: &[Account], instruction_data: &[u8]) -> (r: Result<
    Vec<Action>,
    ProgramError,
>)
    ensures
        plan_view(r) == processed(accounts@, instruction_data@),
{
    if instruction_data.len() == 0 {
        return Err(ProgramError::InvalidInstructionData);
    }
    let discriminator = instruction_data[0];
    if discriminator == Make::DISCRIMINATOR {
        let data = slice_subrange(instruction_data, 1, instruction_data.len());
        match Make::try_from((data, accounts)) {
            Ok(make) => make.process(),
            Err(e) => Err(e),
        }
    } else if discriminator == Take::DISCRIMINATOR {
        match Take::try_from(accounts) {
            Ok(take) => take.process(),
            Err(e) => Err(e),
        }
    } else if discriminator == Refund::DISCRIMINATOR {
        match Refund::try_from(accounts) {
            Ok(refund) => refund.process(),
            Err(e) => Err(e),
        }
    } else {
        Err(ProgramError::InvalidInstructionData)
    }
}

/// The errors of the three operations are a closed list: whatever the
/// accounts and the bytes of the instruction, an instruction that fails does so
/// with a missing signature, an illegal or invalid owner, invalid account
/// data, an invalid argument, an account already initialized, too few
/// accounts, or invalid instruction data.
pub proof fn lemma_errors_are_closed(accounts: Seq<Account>, instruction_data: Seq<u8>)
    ensures
        processed(accounts, instruction_data) matches Err(e) ==> e.ends_an_operation(),
{
}

} // verus!
