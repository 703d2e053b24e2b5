//! Opening an escrow: the maker names the swap and deposits token A.

use vstd::prelude::*;
use vstd::bytes::{spec_u64_from_le_bytes, u64_from_le_bytes};
use vstd::slice::slice_subrange;
use crate::account::{consistent, Account};
use crate::action::{escrow_seeds, escrow_seeds_of, tokens_credited, Action, Signer};
use crate::address::{
    bump_completes, canonical_address, derived_view, same_address, try_find_program_address, Address,
};
use crate::error::ProgramError;
use crate::helpers::{
    associated_address, associated_checked, find_associated_address, plan_view, AccountCheck,
    AssociatedTokenAccount, MintAccount, SignerAccount,
};
use crate::programs::TOKEN_PROGRAM_ID;
use crate::state::Escrow;

verus! {

/// The accounts of the operation, by role.
pub struct MakeAccounts<'a> {
    /// Who opens the escrow, pays for its accounts and deposits token A.
    pub maker: &'a Account,
    /// The account that will hold the escrow record.
    pub escrow: &'a Account,
    /// The mint of the token deposited.
    pub mint_a: &'a Account,
    /// The mint of the token wanted.
    pub mint_b: &'a Account,
    /// The maker's holding account of token A.
    pub maker_ata_a: &'a Account,
    /// The account that will hold the deposit.
    pub vault: &'a Account,
    /// The system program.
    pub system_program: &'a Account,
    /// The token program.
    pub token_program: &'a Account,
}

/// What the check of the vault's slot answers, given the address derived for
/// the vault: the account must live at that address, an invalid argument
/// where it lives elsewhere or no address is derived, and hold no data yet.
pub open spec fn vault_slot_checked(vault: &Account, derived: Option<(Seq<u8>, u8)>) -> Result<(), ProgramError> {
    if !(derived matches Some((address, _)) && address == vault.address@) {
        Err(ProgramError::InvalidArgument)
    } else if vault.data@.len() != 0 {
        Err(ProgramError::AccountAlreadyInitialized)
    } else {
        Ok(())
    }
}

/// What the validation of the accounts answers, given the addresses derived
/// for the maker's holding account and for the vault. There must be nine
/// accounts, the last of them unused; the first rule broken decides: the
/// maker signs, both mints are mints of the classic token program, the maker's holding account is the maker's
/// associated account, and the vault's slot is free.
pub open spec fn make_accounts_checked(
    accounts: Seq<Account>,
    maker_ata_a: Option<(Seq<u8>, u8)>,
    vault: Option<(Seq<u8>, u8)>,
) -> Result<(), ProgramError> {
    if accounts.len() != 9 {
        Err(ProgramError::NotEnoughAccountKeys)
    } else if SignerAccount::checked(&accounts[0]) is Err {
        SignerAccount::checked(&accounts[0])
    } else if MintAccount::checked(&accounts[2]) is Err {
        MintAccount::checked(&accounts[2])
    } else if MintAccount::checked(&accounts[3]) is Err {
        MintAccount::checked(&accounts[3])
    } else if associated_checked(&accounts[4], maker_ata_a) is Err {
        associated_checked(&accounts[4], maker_ata_a)
    } else {
        vault_slot_checked(&accounts[5], vault)
    }
}

/// The address derived for the maker's holding account of token A.
pub open spec fn make_maker_ata_a(accounts: Seq<Account>) -> Option<(Seq<u8>, u8)> {
    associated_address(accounts[0].address, accounts[7].address, accounts[2].address)
}

/// The address derived for the vault: the escrow's holding account of token
/// A under the classic token program.
pub open spec fn make_vault(accounts: Seq<Account>) -> Option<(Seq<u8>, u8)> {
    associated_address(accounts[1].address, TOKEN_PROGRAM_ID, accounts[2].address)
}

impl<'a> MakeAccounts<'a> {
    /// The first eight of `accounts`, each in its role.
    pub open spec fn of(accounts: Seq<Account>) -> Self {
        MakeAccounts {
            maker: &accounts[0],
            escrow: &accounts[1],
            mint_a: &accounts[2],
            mint_b: &accounts[3],
            maker_ata_a: &accounts[4],
            vault: &accounts[5],
            system_program: &accounts[6],
            token_program: &accounts[7],
        }
    }

    /// Checks the vault's slot against the address derived for the vault.
    pub fn check_vault(vault: &Account, derived: Option<(Address, u8)>) -> (r: Result<(), ProgramError>)
        ensures
            r == vault_slot_checked(vault, derived_view(derived)),
    {
        match derived {
            Some((address, _)) => {
                if !same_address(vault.address(), &address) {
                    return Err(ProgramError::InvalidArgument);
                }
            },
            None => {
                return Err(ProgramError::InvalidArgument);
            },
        }
        if !vault.is_data_empty() {
            return Err(ProgramError::AccountAlreadyInitialized);
        }
        Ok(())
    }

    /// Validates the accounts, given the addresses derived for the maker's
    /// holding account and for the vault.
    pub fn validate(
        accounts: &'a [Account],
        maker_ata_a: Option<(Address, u8)>,
        vault: Option<(Address, u8)>,
    ) -> (r: Result<Self, ProgramError>)
        ensures
            match make_accounts_checked(accounts@, derived_view(maker_ata_a), derived_view(vault)) {
                Ok(_) => r is Ok && r->Ok_0 == MakeAccounts::of(accounts@),
                Err(e) => r is Err && r->Err_0 == e,
            },
    {
        if accounts.len() != 9 {
            return Err(ProgramError::NotEnoughAccountKeys);
        }
        let maker = &accounts[0];
        let escrow = &accounts[1];
        let mint_a = &accounts[2];
        let mint_b = &accounts[3];
        let maker_ata_a_account = &accounts[4];
        let vault_account = &accounts[5];
        let system_program = &accounts[6];
        let token_program = &accounts[7];
        match SignerAccount::check(maker) {
            Err(e) => { return Err(e); },
            Ok(_) => {},
        }
        match MintAccount::check(mint_a) {
            Err(e) => { return Err(e); },
            Ok(_) => {},
        }
        match MintAccount::check(mint_b) {
            Err(e) => { return Err(e); },
            Ok(_) => {},
        }
        match AssociatedTokenAccount::check_derived(maker_ata_a_account, maker_ata_a) {
            Err(e) => { return Err(e); },
            Ok(_) => {},
        }
        match Self::check_vault(vault_account, vault) {
            Err(e) => { return Err(e); },
            Ok(_) => {},
        }
        Ok(
            Self {
                maker,
                escrow,
                mint_a,
                mint_b,
                maker_ata_a: maker_ata_a_account,
                vault: vault_account,
                system_program,
                token_program,
            },
        )
    }

    /// Takes the accounts of the operation from the accounts of the
    /// transaction and validates them.
    pub fn try_from(accounts: &'a [Account]) -> (r: Result<Self, ProgramError>)
        ensures
            match make_accounts_checked(accounts@, make_maker_ata_a(accounts@), make_vault(accounts@)) {
                Ok(_) => r is Ok && r->Ok_0 == MakeAccounts::of(accounts@),
                Err(e) => r is Err && r->Err_0 == e,
            },
    {
        if accounts.len() != 9 {
            return Err(ProgramError::NotEnoughAccountKeys);
        }
        let maker_ata_a = find_associated_address(
            accounts[0].address(),
            accounts[7].address(),
            accounts[2].address(),
        );
        let vault = find_associated_address(accounts[1].address(), &TOKEN_PROGRAM_ID, accounts[2].address());
        Self::validate(accounts, maker_ata_a, vault)
    }
}

/// What the maker asks for: the seed of the escrow, the amount of token B
/// wanted, and the amount of token A deposited.
#[derive(Clone, Copy, Debug, PartialEq, Eq)]
pub struct MakeInstructionData {
    /// Tells apart the escrows of one maker.
    pub seed: u64,
    /// How much of token B the maker wants.
    pub receive: u64,
    /// How much of token A the maker deposits.
    pub amount: u64,
}

/// What the bytes of the instruction hold: three numbers of 8 bytes each, low
/// byte first, and nothing else; a deposit of nothing is refused.
pub open spec fn make_data_parsed(data: Seq<u8>) -> Result<MakeInstructionData, ProgramError> {
    if data.len() != 24 || spec_u64_from_le_bytes(data.subrange(16, 24)) == 0 {
        Err(ProgramError::InvalidInstructionData)
    } else {
        Ok(
            MakeInstructionData {
                seed: spec_u64_from_le_bytes(data.subrange(0, 8)),
                receive: spec_u64_from_le_bytes(data.subrange(8, 16)),
                amount: spec_u64_from_le_bytes(data.subrange(16, 24)),
            },
        )
    }
}

impl MakeInstructionData {
    /// Reads what the maker asks for from the bytes of the instruction.
    pub fn try_from(data: &[u8]) -> (r: Result<Self, ProgramError>)
        ensures
            r == make_data_parsed(data@),
    {
        if data.len() != 24 {
            return Err(ProgramError::InvalidInstructionData);
        }
        let seed = u64_from_le_bytes(slice_subrange(data, 0, 8));
        let receive = u64_from_le_bytes(slice_subrange(data, 8, 16));
        let amount = u64_from_le_bytes(slice_subrange(data, 16, 24));
        if amount == 0 {
            return Err(ProgramError::InvalidInstructionData);
        }
        Ok(Self { seed, receive, amount })
    }
}

/// A validated request to open an escrow.
pub struct Make<'a> {
    /// The accounts of the operation.
    pub accounts: MakeAccounts<'a>,
    /// What the maker asks for.
    pub instruction_data: MakeInstructionData,
    /// The bump seed that completes the derivation of the escrow's address.
    pub bump: u8,
}

/// The canonical address of the escrow of `maker` with `seed`, with its bump
/// seed, where there is one.
pub open spec fn escrow_address(maker: Address, seed: u64) -> Option<(Seq<u8>, u8)> {
    canonical_address(escrow_seeds(maker@, seed), crate::ID@)
}

/// Whether `bump` is the bump seed of the canonical address of the escrow of
/// `maker` with `seed`, and the escrow's signing authority made with it signs
/// for that very address.
pub open spec fn bump_signs(maker: Address, seed: u64, bump: u8) -> bool {
    escrow_address(maker, seed) matches Some((address, found)) && found == bump && (Signer {
        maker,
        seed,
        bump,
    }).spec_address() == Ok::<Seq<u8>, ProgramError>(address)
}

/// Derives the canonical address of the escrow of `maker` with `seed`.
pub fn find_escrow_address(maker: &Address, seed: u64) -> (r: Option<(Address, u8)>)
    ensures
        derived_view(r) == escrow_address(*maker, seed),
        bump_completes(escrow_seeds(maker@, seed), crate::ID@, derived_view(r)),
{
    let seeds = escrow_seeds_of(maker, seed);
    try_find_program_address(&seeds, &crate::ID)
}

/// What opening an escrow comes to, all told, given the three addresses
/// derived on the way: the error of the first rule broken, or the request and
/// the bump seed. The accounts are validated before the bytes of the
/// instruction are read; where no address can be derived for the escrow, the
/// maker and the seed are an invalid argument.
pub open spec fn make_checked(
    data: Seq<u8>,
    accounts: Seq<Account>,
    maker_ata_a: Option<(Seq<u8>, u8)>,
    vault: Option<(Seq<u8>, u8)>,
    escrow: Option<(Seq<u8>, u8)>,
) -> Result<(MakeInstructionData, u8), ProgramError> {
    match make_accounts_checked(accounts, maker_ata_a, vault) {
        Err(e) => Err(e),
        Ok(_) => match make_data_parsed(data) {
            Err(e) => Err(e),
            Ok(instruction_data) => match escrow {
                None => Err(ProgramError::InvalidArgument),
                Some((_, bump)) => Ok((instruction_data, bump)),
            },
        },
    }
}

/// The actions that open the escrow: the system service creates the escrow
/// account, with the size of a record, owned by this program and signed for
/// by the escrow itself; the associated-token service creates the vault as the
/// escrow's holding account of token A; the record is stored; and the token
/// service moves the deposit from the maker's holding account to the vault, on
/// the maker's own authority.
pub open spec fn make_plan(accounts: MakeAccounts, instruction_data: MakeInstructionData, bump: u8) -> Seq<Action> {
    seq![
        Action::CreateAccountWithMinimumBalance {
            account: accounts.escrow.address,
            space: Escrow::LEN as u64,
            owner: crate::ID,
            payer: accounts.maker.address,
            signer: Some(Signer { maker: accounts.maker.address, seed: instruction_data.seed, bump }),
        },
        Action::CreateAssociatedTokenAccount {
            funding_account: accounts.maker.address,
            account: accounts.vault.address,
            wallet: accounts.escrow.address,
            mint: accounts.mint_a.address,
            system_program: accounts.system_program.address,
            token_program: accounts.token_program.address,
            signer: None,
        },
        Action::StoreEscrow {
            account: accounts.escrow.address,
            escrow: Escrow {
                seed: instruction_data.seed,
                maker: accounts.maker.address,
                mint_a: accounts.mint_a.address,
                mint_b: accounts.mint_b.address,
                receive: instruction_data.receive,
                bump,
            },
        },
        Action::Transfer {
            from: accounts.maker_ata_a.address,
            to: accounts.vault.address,
            authority: accounts.maker.address,
            amount: instruction_data.amount,
            signer: None,
        },
    ]
}

/// What the instruction that opens an escrow comes to on the bytes `data`
/// and on `accounts`: the error of the first rule broken, or the plan of the
/// opening.
pub open spec fn make_outcome(data: Seq<u8>, accounts: Seq<Account>) -> Result<Seq<Action>, ProgramError> {
    match make_checked(
        data,
        accounts,
        make_maker_ata_a(accounts),
        make_vault(accounts),
        escrow_address(accounts[0].address, spec_u64_from_le_bytes(data.subrange(0, 8))),
    ) {
        Err(e) => Err(e),
        Ok((instruction_data, bump)) => Ok(make_plan(MakeAccounts::of(accounts), instruction_data, bump)),
    }
}

impl<'a> Make<'a> {
    /// The first byte of the instruction that opens an escrow.
    pub const DISCRIMINATOR: u8 = 0;

    /// Makes the request from validated accounts, what the maker asks for and
    /// the address derived for the escrow.
    pub fn build(
        accounts: MakeAccounts<'a>,
        instruction_data: MakeInstructionData,
        escrow: Option<(Address, u8)>,
    ) -> (r: Result<Self, ProgramError>)
        ensures
            match escrow {
                None => r is Err && r->Err_0 == ProgramError::InvalidArgument,
                Some((_, bump)) => r is Ok && r->Ok_0.accounts == accounts && r->Ok_0.instruction_data
                    == instruction_data && r->Ok_0.bump == bump,
            },
    {
        match escrow {
            None => Err(ProgramError::InvalidArgument),
            Some((_, bump)) => Ok(Self { accounts, instruction_data, bump }),
        }
    }

    /// Validates the accounts, reads the bytes of the instruction and derives
    /// the escrow's bump seed.
    pub fn try_from(input: (&'a [u8], &'a [Account])) -> (r: Result<Self, ProgramError>)
        ensures
            match make_checked(
                input.0@,
                input.1@,
                make_maker_ata_a(input.1@),
                make_vault(input.1@),
                escrow_address(input.1@[0].address, spec_u64_from_le_bytes(input.0@.subrange(0, 8))),
            ) {
                Ok((instruction_data, bump)) => r is Ok && r->Ok_0.accounts == MakeAccounts::of(input.1@)
                    && r->Ok_0.instruction_data == instruction_data && r->Ok_0.bump == bump,
                Err(e) => r is Err && r->Err_0 == e,
            },
            r matches Ok(make) ==> bump_signs(make.accounts.maker.address, make.instruction_data.seed, make.bump),
    {
        let (data, accounts) = input;
        let accounts = match MakeAccounts::try_from(accounts) {
            Ok(accounts) => accounts,
            Err(e) => { return Err(e); },
        };
        let instruction_data = match MakeInstructionData::try_from(data) {
            Ok(instruction_data) => instruction_data,
            Err(e) => { return Err(e); },
        };
        let escrow = find_escrow_address(accounts.maker.address(), instruction_data.seed);
        Self::build(accounts, instruction_data, escrow)
    }

    /// Plans the opening of the escrow.
    pub fn process(&self) -> (r: Result<Vec<Action>, ProgramError>)
        ensures
            plan_view(r) == Ok::<Seq<Action>, ProgramError>(make_plan(self.accounts, self.instruction_data, self.bump)),
    {
        let mut plan: Vec<Action> = Vec::new();
        plan.push(
            Action::CreateAccountWithMinimumBalance {
                account: self.accounts.escrow.address,
                space: Escrow::LEN as u64,
                owner: crate::ID,
                payer: self.accounts.maker.address,
                signer: Some(
                    Signer { maker: self.accounts.maker.address, seed: self.instruction_data.seed, bump: self.bump },
                ),
            },
        );
        plan.push(
            Action::CreateAssociatedTokenAccount {
                funding_account: self.accounts.maker.address,
                account: self.accounts.vault.address,
                wallet: self.accounts.escrow.address,
                mint: self.accounts.mint_a.address,
                system_program: self.accounts.system_program.address,
                token_program: self.accounts.token_program.address,
                signer: None,
            },
        );
        plan.push(
            Action::StoreEscrow {
                account: self.accounts.escrow.address,
                escrow: Escrow {
                    seed: self.instruction_data.seed,
                    maker: self.accounts.maker.address,
                    mint_a: self.accounts.mint_a.address,
                    mint_b: self.accounts.mint_b.address,
                    receive: self.instruction_data.receive,
                    bump: self.bump,
                },
            },
        );
        plan.push(
            Action::Transfer {
                from: self.accounts.maker_ata_a.address,
                to: self.accounts.vault.address,
                authority: self.accounts.maker.address,
                amount: self.instruction_data.amount,
                signer: None,
            },
        );
        assert(plan@ =~= make_plan(self.accounts, self.instruction_data, self.bump));
        Ok(plan)
    }
}

/// Every escrow that is opened is funded and described exactly. Where the
/// instruction is accepted, the deposit is more than nothing; the vault held
/// no data before, and the actions planned add exactly the deposit to it; the
/// one record stored names the seed, the maker, both mints, the amount wanted
/// and the bump seed of the request; and that record, read back from the bytes
/// under which it is stored, is the same record.
pub proof fn lemma_make_funds_vault(data: Seq<u8>, accounts: Seq<Account>)
    requires
        consistent(accounts),
        make_outcome(data, accounts) is Ok,
    ensures
        make_data_parsed(data) matches Ok(instruction_data) && escrow_address(
            accounts[0].address,
            instruction_data.seed,
        ) matches Some((_, bump)) && {
            let plan = make_outcome(data, accounts)->Ok_0;
            let record = Escrow {
                seed: instruction_data.seed,
                maker: accounts[0].address,
                mint_a: accounts[2].address,
                mint_b: accounts[3].address,
                receive: instruction_data.receive,
                bump,
            };
            &&& instruction_data.amount > 0
            &&& accounts[5].data@.len() == 0
            &&& tokens_credited(plan, accounts[5].address) == instruction_data.amount
            &&& plan.len() == 4
            &&& plan[2] == (Action::StoreEscrow { account: accounts[1].address, escrow: record })
            &&& Escrow::loaded(record.bytes()) == Ok::<Escrow, ProgramError>(record)
        },
{
    let instruction_data = make_data_parsed(data)->Ok_0;
    let bump = escrow_address(accounts[0].address, instruction_data.seed)->Some_0.1;
    let plan = make_plan(MakeAccounts::of(accounts), instruction_data, bump);
    let record = Escrow {
        seed: instruction_data.seed,
        maker: accounts[0].address,
        mint_a: accounts[2].address,
        mint_b: accounts[3].address,
        receive: instruction_data.receive,
        bump,
    };
    Escrow::lemma_load_stored(record);
    assert(accounts[4].data@.len() != accounts[5].data@.len());
    assert(accounts[4].address != accounts[5].address);
    reveal_with_fuel(tokens_credited, 5);
    assert(plan.drop_last().drop_last().drop_last().drop_last().len() == 0);
}

/// A deposit of nothing opens no escrow: whatever the accounts, the
/// instruction fails, and a failure plans no action, so that no account is
/// created or changed. Where the accounts pass their validation, the failure
/// is that of invalid instruction data.
pub proof fn lemma_make_rejects_empty_deposit(data: Seq<u8>, accounts: Seq<Account>)
    requires
        data.len() == 24,
        spec_u64_from_le_bytes(data.subrange(16, 24)) == 0,
    ensures
        make_outcome(data, accounts) is Err,
        make_accounts_checked(accounts, make_maker_ata_a(accounts), make_vault(accounts)) is Ok ==> make_outcome(
            data,
            accounts,
        ) == Err::<Seq<Action>, ProgramError>(ProgramError::InvalidInstructionData),
{
}

} // verus!
