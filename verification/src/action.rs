//! What an operation asks the ledger to do.

use vstd::prelude::*;
use vstd::bytes::{spec_u64_to_le_bytes, u64_to_le_bytes};
use crate::address::{create_program_address, created_view, program_address, seeds_view, Address};
use crate::error::ProgramError;
use crate::state::{write_address, Escrow};

verus! {

/// The tag that opens the seeds of every escrow address: the bytes of the
/// word "escrow".
pub open spec fn escrow_tag() -> Seq<u8> {
    seq![101u8, 115u8, 99u8, 114u8, 111u8, 119u8]
}

/// The seeds from which the address of an escrow is derived: the tag, the
/// maker's address and the maker's seed in 8 bytes, low byte first.
pub open spec fn escrow_seeds(maker: Seq<u8>, seed: u64) -> Seq<Seq<u8>> {
    seq![escrow_tag(), maker, spec_u64_to_le_bytes(seed)]
}

/// The seeds from which an associated token address is derived: the wallet,
/// the token program and the mint.
pub open spec fn associated_seeds(wallet: Seq<u8>, token_program: Seq<u8>, mint: Seq<u8>) -> Seq<Seq<u8>> {
    seq![wallet, token_program, mint]
}

/// The bytes of an address, as a seed.
pub fn address_seed(address: &Address) -> (r: Vec<u8>)
    ensures
        r@ == address@,
{
    let mut out: Vec<u8> = Vec::new();
    write_address(&mut out, address);
    assert(out@ =~= address@);
    out
}

/// The seeds of an escrow address, ready for a derivation.
pub fn escrow_seeds_of(maker: &Address, seed: u64) -> (r: Vec<Vec<u8>>)
    ensures
        seeds_view(r@) == escrow_seeds(maker@, seed),
{
    let tag: Vec<u8> = vec![101u8, 115u8, 99u8, 114u8, 111u8, 119u8];
    assert(tag@ =~= escrow_tag());
    let mut seeds: Vec<Vec<u8>> = Vec::new();
    seeds.push(tag);
    seeds.push(address_seed(maker));
    seeds.push(u64_to_le_bytes(seed));
    assert(seeds_view(seeds@) =~= escrow_seeds(maker@, seed));
    seeds
}

/// The seeds of an associated token address, ready for a derivation.
pub fn associated_seeds_of(wallet: &Address, token_program: &Address, mint: &Address) -> (r: Vec<Vec<u8>>)
    ensures
        seeds_view(r@) == associated_seeds(wallet@, token_program@, mint@),
{
    let mut seeds: Vec<Vec<u8>> = Vec::new();
    seeds.push(address_seed(wallet));
    seeds.push(address_seed(token_program));
    seeds.push(address_seed(mint));
    assert(seeds_view(seeds@) =~= associated_seeds(wallet@, token_program@, mint@));
    seeds
}

/// The authority of an escrow to sign for itself: the seed material from
/// which its address is derived. It is made where an action needs it and
/// lives no longer than that action.
#[derive(Clone, Copy, Debug, PartialEq, Eq)]
pub struct Signer {
    /// The maker of the escrow.
    pub maker: Address,
    /// The maker's seed.
    pub seed: u64,
    /// The bump seed that completes the derivation.
    pub bump: u8,
}

impl Signer {
    /// The seeds that the ledger hashes to find the signing address: those of
    /// the escrow, then the bump seed as a seed of one byte.
    pub open spec fn spec_seeds(self) -> Seq<Seq<u8>> {
        escrow_seeds(self.maker@, self.seed).push(seq![self.bump])
    }

    /// The address for which these seeds sign under this program, or the
    /// error with which the derivation refuses them.
    pub open spec fn spec_address(self) -> Result<Seq<u8>, ProgramError> {
        program_address(self.spec_seeds(), crate::ID@)
    }

    /// Derives the address for which these seeds sign under this program.
    pub fn address(&self) -> (r: Result<Address, ProgramError>)
        ensures
            created_view(r) == self.spec_address(),
    {
        let seeds = self.seeds();
        create_program_address(&seeds, &crate::ID)
    }

    /// The seeds to hand to the ledger with a signed action.
    pub fn seeds(&self) -> (r: Vec<Vec<u8>>)
        ensures
            seeds_view(r@) == self.spec_seeds(),
    {
        let mut seeds = escrow_seeds_of(&self.maker, self.seed);
        let bump: Vec<u8> = vec![self.bump];
        assert(bump@ =~= seq![self.bump]);
        seeds.push(bump);
        assert(seeds_view(seeds@) =~= self.spec_seeds());
        seeds
    }
}

/// One call into a ledger service, or one change to an account that this
/// program owns. Accounts are named by their addresses.
#[derive(Clone, Copy, Debug, PartialEq, Eq)]
pub enum Action {
    /// System service: create `to`, funded by `from` with `lamports`, with
    /// `space` bytes of data, owned by `owner`.
    CreateAccount { from: Address, to: Address, lamports: u64, space: u64, owner: Address, signer: Option<Signer> },
    /// System service: create `account` with `space` bytes of data, owned by
    /// `owner`, funded by `payer` with the least balance that exempts it from
    /// rent.
    CreateAccountWithMinimumBalance { account: Address, space: u64, owner: Address, payer: Address, signer: Option<Signer> },
    /// Token service `program`: make `mint` a mint.
    InitializeMint2 {
        program: Address,
        mint: Address,
        decimals: u8,
        mint_authority: Address,
        freeze_authority: Option<Address>,
    },
    /// Token service `program`: make `account` a holding account of `mint`
    /// for `owner`.
    InitializeAccount3 { program: Address, account: Address, mint: Address, owner: Address },
    /// Associated-token service: create the holding account of `wallet` for
    /// `mint`, funded by `funding_account`.
    CreateAssociatedTokenAccount {
        funding_account: Address,
        account: Address,
        wallet: Address,
        mint: Address,
        system_program: Address,
        token_program: Address,
        signer: Option<Signer>,
    },
    /// Token service: move `amount` tokens from `from` to `to`.
    Transfer { from: Address, to: Address, authority: Address, amount: u64, signer: Option<Signer> },
    /// Token service: close the holding account `account` and send its
    /// balance to `destination`.
    CloseAccount { account: Address, destination: Address, authority: Address, signer: Option<Signer> },
    /// Write the bytes of `escrow` into the data of `account`.
    StoreEscrow { account: Address, escrow: Escrow },
    /// Write the tombstone into the first byte of the data of `account`.
    MarkClosed { account: Address },
    /// Add the whole balance of `from` to the balance of `to`.
    MoveLamports { from: Address, to: Address },
    /// Shrink or grow the data of `account` to `len` bytes.
    Resize { account: Address, len: usize },
    /// Give `account` back to the system: no balance, no data, no owner.
    Release { account: Address },
}

/// The byte that marks the data of a closed account.
pub const TOMBSTONE: u8 = 0xff;

/// The tokens that `action` adds to the holding account at `account`: what a
/// transfer moves into it, less what a transfer moves out of it.
pub open spec fn tokens_moved(action: Action, account: Address) -> int {
    match action {
        Action::Transfer { from, to, amount, .. } => (if to == account {
            amount as int
        } else {
            0
        }) - (if from == account {
            amount as int
        } else {
            0
        }),
        _ => 0,
    }
}

/// The tokens that the actions of `plan`, taken together, add to the holding
/// account at `account`.
pub open spec fn tokens_credited(plan: Seq<Action>, account: Address) -> int
    decreases plan.len(),
{
    if plan.len() == 0 {
        0
    } else {
        tokens_credited(plan.drop_last(), account) + tokens_moved(plan.last(), account)
    }
}

/// What two plans add to a holding account, one performed after the other,
/// is the sum of what each adds.
pub proof fn lemma_tokens_credited_concat(first: Seq<Action>, second: Seq<Action>, account: Address)
    ensures
        tokens_credited(first + second, account) == tokens_credited(first, account) + tokens_credited(
            second,
            account,
        ),
    decreases second.len(),
{
    if second.len() == 0 {
        assert(first + second =~= first);
    } else {
        lemma_tokens_credited_concat(first, second.drop_last(), account);
        assert((first + second).drop_last() =~= first + second.drop_last());
        assert((first + second).last() == second.last());
    }
}

/// A plan without a transfer adds nothing to any holding account.
pub proof fn lemma_no_transfer_credits_nothing(plan: Seq<Action>, account: Address)
    requires
        forall|i: int| 0 <= i < plan.len() ==> !(#[trigger] plan[i] is Transfer),
    ensures
        tokens_credited(plan, account) == 0,
    decreases plan.len(),
{
    if plan.len() > 0 {
        lemma_no_transfer_credits_nothing(plan.drop_last(), account);
    }
}

} // verus!
