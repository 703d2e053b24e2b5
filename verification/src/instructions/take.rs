//! Settling an escrow: the taker pays token B and receives the deposit.

use vstd::prelude::*;
use crate::account::Account;
use crate::action::{
    lemma_no_transfer_credits_nothing, lemma_tokens_credited_concat, tokens_credited, Action, Signer,
};
use crate::address::{created_view, derived_view, Address};
use crate::error::ProgramError;
use crate::helpers::{
    associated_address, associated_checked, associated_if_needed, authenticated, closing,
    find_associated_address, held_amount, lemma_closed_is_no_program_account, plan_view, token_amount,
    AccountCheck, AccountClose,
    AssociatedTokenAccount, AssociatedTokenAccountCheck, MintInterface, ProgramAccount, SignerAccount,
};
use crate::programs::SYSTEM_PROGRAM_ID;
use crate::state::Escrow;

verus! {

/// The accounts of the operation, by role.
pub struct TakeAccounts<'a> {
    /// Who settles the escrow and pays token B.
    pub taker: &'a Account,
    /// Who opened the escrow.
    pub maker: &'a Account,
    /// The account that holds the escrow record.
    pub escrow: &'a Account,
    /// The mint of the token deposited.
    pub mint_a: &'a Account,
    /// The mint of the token wanted.
    pub mint_b: &'a Account,
    /// The account that holds the deposit.
    pub vault: &'a Account,
    /// The taker's holding account of token A.
    pub taker_ata_a: &'a Account,
    /// The taker's holding account of token B.
    pub taker_ata_b: &'a Account,
    /// The maker's holding account of token B.
    pub maker_ata_b: &'a Account,
    /// The system program.
    pub system_program: &'a Account,
    /// The token program.
    pub token_program: &'a Account,
}

/// What the validation of the accounts answers, given the addresses derived
/// for the taker's holding account of token B and for the vault. There must
/// be twelve accounts, the last of them unused; the first rule broken
/// decides: the taker signs, the escrow is an account of this program, both
/// mints are mints of either token program, and the taker's holding account
/// and the vault are the associated accounts of the taker and of the escrow.
pub open spec fn take_accounts_checked(
    accounts: Seq<Account>,
    taker_ata_b: Option<(Seq<u8>, u8)>,
    vault: Option<(Seq<u8>, u8)>,
) -> Result<(), ProgramError> {
    if accounts.len() != 12 {
        Err(ProgramError::NotEnoughAccountKeys)
    } else if SignerAccount::checked(&accounts[0]) is Err {
        SignerAccount::checked(&accounts[0])
    } else if ProgramAccount::checked(&accounts[2]) is Err {
        ProgramAccount::checked(&accounts[2])
    } else if MintInterface::checked(&accounts[3]) is Err {
        MintInterface::checked(&accounts[3])
    } else if MintInterface::checked(&accounts[4]) is Err {
        MintInterface::checked(&accounts[4])
    } else if associated_checked(&accounts[7], taker_ata_b) is Err {
        associated_checked(&accounts[7], taker_ata_b)
    } else {
        associated_checked(&accounts[5], vault)
    }
}

/// The address derived for the taker's holding account of token B.
pub open spec fn take_taker_ata_b(accounts: Seq<Account>) -> Option<(Seq<u8>, u8)> {
    associated_address(accounts[0].address, accounts[10].address, accounts[4].address)
}

/// The address derived for the vault: the escrow's holding account of token
/// A.
pub open spec fn take_vault(accounts: Seq<Account>) -> Option<(Seq<u8>, u8)> {
    associated_address(accounts[2].address, accounts[10].address, accounts[3].address)
}

impl<'a> TakeAccounts<'a> {
    /// The first eleven of `accounts`, each in its role.
    pub open spec fn of(accounts: Seq<Account>) -> Self {
        TakeAccounts {
            taker: &accounts[0],
            maker: &accounts[1],
            escrow: &accounts[2],
            mint_a: &accounts[3],
            mint_b: &accounts[4],
            vault: &accounts[5],
            taker_ata_a: &accounts[6],
            taker_ata_b: &accounts[7],
            maker_ata_b: &accounts[8],
            system_program: &accounts[9],
            token_program: &accounts[10],
        }
    }

    /// Validates the accounts, given the addresses derived for the taker's
    /// holding account of token B and for the vault.
    pub fn validate(
        accounts: &'a [Account],
        taker_ata_b: Option<(Address, u8)>,
        vault: Option<(Address, u8)>,
    ) -> (r: Result<Self, ProgramError>)
        ensures
            match take_accounts_checked(accounts@, derived_view(taker_ata_b), derived_view(vault)) {
                Ok(_) => r is Ok && r->Ok_0 == TakeAccounts::of(accounts@),
                Err(e) => r is Err && r->Err_0 == e,
            },
    {
        if accounts.len() != 12 {
            return Err(ProgramError::NotEnoughAccountKeys);
        }
        let taker = &accounts[0];
        let maker = &accounts[1];
        let escrow = &accounts[2];
        let mint_a = &accounts[3];
        let mint_b = &accounts[4];
        let vault_account = &accounts[5];
        let taker_ata_a = &accounts[6];
        let taker_ata_b_account = &accounts[7];
        let maker_ata_b = &accounts[8];
        let system_program = &accounts[9];
        let token_program = &accounts[10];
        match SignerAccount::check(taker) {
            Err(e) => { return Err(e); },
            Ok(_) => {},
        }
        match ProgramAccount::check(escrow) {
            Err(e) => { return Err(e); },
            Ok(_) => {},
        }
        match MintInterface::check(mint_a) {
            Err(e) => { return Err(e); },
            Ok(_) => {},
        }
        match MintInterface::check(mint_b) {
            Err(e) => { return Err(e); },
            Ok(_) => {},
        }
        match AssociatedTokenAccount::check_derived(taker_ata_b_account, taker_ata_b) {
            Err(e) => { return Err(e); },
            Ok(_) => {},
        }
        match AssociatedTokenAccount::check_derived(vault_account, vault) {
            Err(e) => { return Err(e); },
            Ok(_) => {},
        }
        Ok(
            Self {
                taker,
                maker,
                escrow,
                mint_a,
                mint_b,
                vault: vault_account,
                taker_ata_a,
                taker_ata_b: taker_ata_b_account,
                maker_ata_b,
                system_program,
                token_program,
            },
        )
    }

    /// Takes the accounts of the operation from the accounts of the
    /// transaction and validates them.
    pub fn try_from(accounts: &'a [Account]) -> (r: Result<Self, ProgramError>)
        ensures
            match take_accounts_checked(accounts@, take_taker_ata_b(accounts@), take_vault(accounts@)) {
                Ok(_) => r is Ok && r->Ok_0 == TakeAccounts::of(accounts@),
                Err(e) => r is Err && r->Err_0 == e,
            },
    {
        if accounts.len() != 12 {
            return Err(ProgramError::NotEnoughAccountKeys);
        }
        let taker_ata_b = find_associated_address(
            accounts[0].address(),
            accounts[10].address(),
            accounts[4].address(),
        );
        let vault = find_associated_address(accounts[2].address(), accounts[10].address(), accounts[3].address());
        Self::validate(accounts, taker_ata_b, vault)
    }
}

/// A validated request to settle an escrow.
pub struct Take<'a> {
    /// The accounts of the operation.
    pub accounts: TakeAccounts<'a>,
}

/// The authority of the escrow to sign for itself, made from the maker's
/// address as supplied and the seed material of the record.
pub open spec fn escrow_signer(maker: &Account, escrow: Escrow) -> Signer {
    Signer { maker: maker.address, seed: escrow.seed, bump: escrow.bump }
}

/// The actions that exchange the two tokens: the whole deposit goes from the
/// vault to the taker, signed for by the escrow; the vault is closed and its
/// balance goes to the maker, signed for by the escrow; the amount wanted
/// goes from the taker to the maker, on the taker's own authority.
pub open spec fn take_exchange(accounts: TakeAccounts, escrow: Escrow, amount: u64) -> Seq<Action> {
    seq![
        Action::Transfer {
            from: accounts.vault.address,
            to: accounts.taker_ata_a.address,
            authority: accounts.escrow.address,
            amount,
            signer: Some(escrow_signer(accounts.maker, escrow)),
        },
        Action::CloseAccount {
            account: accounts.vault.address,
            destination: accounts.maker.address,
            authority: accounts.escrow.address,
            signer: Some(escrow_signer(accounts.maker, escrow)),
        },
        Action::Transfer {
            from: accounts.taker_ata_b.address,
            to: accounts.maker_ata_b.address,
            authority: accounts.taker.address,
            amount: escrow.receive,
            signer: None,
        },
    ]
}

/// The actions with which the taker's holding account of token A and the
/// maker's holding account of token B are created where they are missing,
/// both paid for by the taker, given the outcome of the check of each.
pub open spec fn take_setup(
    accounts: TakeAccounts,
    taker_ata_a: Result<(), ProgramError>,
    maker_ata_b: Result<(), ProgramError>,
) -> Seq<Action> {
    associated_if_needed(
        taker_ata_a,
        accounts.taker_ata_a,
        accounts.mint_a,
        accounts.taker,
        accounts.taker,
        accounts.system_program,
        accounts.token_program,
        None,
    ) + associated_if_needed(
        maker_ata_b,
        accounts.maker_ata_b,
        accounts.mint_b,
        accounts.taker,
        accounts.maker,
        accounts.system_program,
        accounts.token_program,
        None,
    )
}

/// What settling comes to, given the record read from the escrow account,
/// the address derived again for the escrow and the outcome of the checks of
/// the two holding accounts that may be missing. The escrow account must live
/// at the derived address and the vault must be a holding account; then the
/// plan creates the missing holding accounts, exchanges the tokens and closes
/// the escrow account, whose balance goes to the taker.
pub open spec fn take_settled(
    accounts: TakeAccounts,
    escrow: Escrow,
    escrow_key: Result<Seq<u8>, ProgramError>,
    taker_ata_a: Result<(), ProgramError>,
    maker_ata_b: Result<(), ProgramError>,
) -> Result<Seq<Action>, ProgramError> {
    match authenticated(accounts.escrow, escrow_key) {
        Err(e) => Err(e),
        Ok(_) => match held_amount(accounts.vault) {
            Err(e) => Err(e),
            Ok(amount) => match closing(accounts.escrow, accounts.taker) {
                Err(e) => Err(e),
                Ok(close) => Ok(
                    take_setup(accounts, taker_ata_a, maker_ata_b) + take_exchange(accounts, escrow, amount)
                        + close,
                ),
            },
        },
    }
}

/// What settling comes to, all told: an escrow account whose data is no
/// record is invalid; any other is settled on the record it stores.
pub open spec fn take_processed(accounts: TakeAccounts) -> Result<Seq<Action>, ProgramError> {
    match Escrow::loaded(accounts.escrow.data@) {
        Err(e) => Err(e),
        Ok(escrow) => take_settled(
            accounts,
            escrow,
            escrow_signer(accounts.maker, escrow).spec_address(),
            AssociatedTokenAccount::checked(
                accounts.taker_ata_a,
                accounts.taker,
                accounts.mint_a,
                accounts.token_program,
            ),
            AssociatedTokenAccount::checked(
                accounts.maker_ata_b,
                accounts.maker,
                accounts.mint_b,
                accounts.token_program,
            ),
        ),
    }
}

/// What the instruction that settles an escrow comes to on `accounts`: the
/// error of the validation, or the plan of the settlement.
pub open spec fn take_outcome(accounts: Seq<Account>) -> Result<Seq<Action>, ProgramError> {
    match take_accounts_checked(accounts, take_taker_ata_b(accounts), take_vault(accounts)) {
        Err(e) => Err(e),
        Ok(_) => take_processed(TakeAccounts::of(accounts)),
    }
}

impl<'a> Take<'a> {
    /// The first byte of the instruction that settles an escrow.
    pub const DISCRIMINATOR: u8 = 1;

    /// Validates the accounts.
    pub fn try_from(accounts: &'a [Account]) -> (r: Result<Self, ProgramError>)
        ensures
            match take_accounts_checked(accounts@, take_taker_ata_b(accounts@), take_vault(accounts@)) {
                Ok(_) => r is Ok && r->Ok_0.accounts == TakeAccounts::of(accounts@),
                Err(e) => r is Err && r->Err_0 == e,
            },
    {
        match TakeAccounts::try_from(accounts) {
            Ok(accounts) => Ok(Self { accounts }),
            Err(e) => Err(e),
        }
    }

    /// Plans the settlement, given the record read from the escrow account,
    /// the address derived again for the escrow and the outcome of the checks
    /// of the two holding accounts that may be missing.
    pub fn settle(
        &self,
        escrow: &Escrow,
        escrow_key: Result<Address, ProgramError>,
        taker_ata_a: Result<(), ProgramError>,
        maker_ata_b: Result<(), ProgramError>,
    ) -> (r: Result<Vec<Action>, ProgramError>)
        ensures
            plan_view(r) == take_settled(self.accounts, *escrow, created_view(escrow_key), taker_ata_a, maker_ata_b),
    {
        match ProgramAccount::check_address(self.accounts.escrow, escrow_key) {
            Err(e) => { return Err(e); },
            Ok(_) => {},
        }
        let signer = Signer { maker: self.accounts.maker.address, seed: escrow.seed, bump: escrow.bump };
        let amount = match token_amount(self.accounts.vault) {
            Ok(amount) => amount,
            Err(e) => { return Err(e); },
        };
        let mut close = match ProgramAccount::close(self.accounts.escrow, self.accounts.taker) {
            Ok(close) => close,
            Err(e) => { return Err(e); },
        };
        let mut plan = AssociatedTokenAccount::plan_if_needed(
            taker_ata_a,
            self.accounts.taker_ata_a,
            self.accounts.mint_a,
            self.accounts.taker,
            self.accounts.taker,
            self.accounts.system_program,
            self.accounts.token_program,
            None,
        );
        let mut second = AssociatedTokenAccount::plan_if_needed(
            maker_ata_b,
            self.accounts.maker_ata_b,
            self.accounts.mint_b,
            self.accounts.taker,
            self.accounts.maker,
            self.accounts.system_program,
            self.accounts.token_program,
            None,
        );
        plan.append(&mut second);
        let ghost setup = plan@;
        plan.push(
            Action::Transfer {
                from: self.accounts.vault.address,
                to: self.accounts.taker_ata_a.address,
                authority: self.accounts.escrow.address,
                amount,
                signer: Some(signer),
            },
        );
        plan.push(
            Action::CloseAccount {
                account: self.accounts.vault.address,
                destination: self.accounts.maker.address,
                authority: self.accounts.escrow.address,
                signer: Some(signer),
            },
        );
        plan.push(
            Action::Transfer {
                from: self.accounts.taker_ata_b.address,
                to: self.accounts.maker_ata_b.address,
                authority: self.accounts.taker.address,
                amount: escrow.receive,
                signer: None,
            },
        );
        assert(plan@ =~= setup + take_exchange(self.accounts, *escrow, amount));
        plan.append(&mut close);
        Ok(plan)
    }

    /// Plans the settlement.
    pub fn process(&self) -> (r: Result<Vec<Action>, ProgramError>)
        ensures
            plan_view(r) == take_processed(self.accounts),
    {
        let escrow = match Escrow::load(self.accounts.escrow.data.as_slice()) {
            Ok(escrow) => escrow,
            Err(e) => { return Err(e); },
        };
        let signer = Signer { maker: self.accounts.maker.address, seed: escrow.seed, bump: escrow.bump };
        let escrow_key = signer.address();
        let taker_ata_a = AssociatedTokenAccount::check(
            self.accounts.taker_ata_a,
            self.accounts.taker,
            self.accounts.mint_a,
            self.accounts.token_program,
        );
        let maker_ata_b = AssociatedTokenAccount::check(
            self.accounts.maker_ata_b,
            self.accounts.maker,
            self.accounts.mint_b,
            self.accounts.token_program,
        );
        self.settle(&escrow, escrow_key, taker_ata_a, maker_ata_b)
    }
}

/// A forged escrow account is refused before anything is planned. Where
/// deriving the address again from the maker and the stored seed material
/// does not give the address of the escrow account supplied, be it another
/// address or none, settling fails with the error of an account that is not
/// this program's, whatever the record and the other accounts hold. A failure
/// plans no action, so that no balance and no account changes.
pub proof fn lemma_take_rejects_forged_escrow(
    accounts: TakeAccounts,
    escrow: Escrow,
    escrow_key: Result<Seq<u8>, ProgramError>,
    taker_ata_a: Result<(), ProgramError>,
    maker_ata_b: Result<(), ProgramError>,
)
    requires
        escrow_key != Ok::<Seq<u8>, ProgramError>(accounts.escrow.address@),
    ensures
        take_settled(accounts, escrow, escrow_key, taker_ata_a, maker_ata_b) == Err::<
            Seq<Action>,
            ProgramError,
        >(ProgramError::InvalidAccountOwner),
{
}

/// Settling fails, and plans no action, wherever the escrow account supplied
/// does not live at the address that the maker's address derives with the
/// seed material that the account stores: where the accounts pass their
/// validation, with the error of an account that is not this program's.
pub proof fn lemma_take_authenticates(accounts: Seq<Account>)
    requires
        escrow_signer(&accounts[1], Escrow::stored_in(accounts[2].data@)).spec_address() != Ok::<
            Seq<u8>,
            ProgramError,
        >(accounts[2].address@),
    ensures
        take_outcome(accounts) is Err,
        take_accounts_checked(accounts, take_taker_ata_b(accounts), take_vault(accounts)) is Ok ==> take_outcome(
            accounts,
        ) == Err::<Seq<Action>, ProgramError>(ProgramError::InvalidAccountOwner),
{
}

/// An escrow is settled at most once: once its account was closed, and so
/// is owned by the system program or holds no record any more, settling it
/// fails and plans no action.
pub proof fn lemma_take_of_closed_escrow_fails(accounts: Seq<Account>)
    requires
        accounts[2].owner@ == SYSTEM_PROGRAM_ID@ || accounts[2].data@.len() <= 1,
    ensures
        take_outcome(accounts) is Err,
{
    lemma_closed_is_no_program_account(&accounts[2]);
}

/// A settlement moves the whole deposit and exactly the amount wanted. Where
/// the four holding accounts are four accounts, the plan adds to the taker's
/// holding account of token A what the vault holds and takes as much from the
/// vault, and adds to the maker's holding account of token B the amount that
/// the record asks for and takes as much from the taker's.
pub proof fn lemma_take_exchanges(
    accounts: TakeAccounts,
    escrow: Escrow,
    escrow_key: Result<Seq<u8>, ProgramError>,
    taker_ata_a: Result<(), ProgramError>,
    maker_ata_b: Result<(), ProgramError>,
)
    requires
        take_settled(accounts, escrow, escrow_key, taker_ata_a, maker_ata_b) is Ok,
        accounts.vault.address != accounts.taker_ata_a.address,
        accounts.vault.address != accounts.taker_ata_b.address,
        accounts.vault.address != accounts.maker_ata_b.address,
        accounts.taker_ata_a.address != accounts.taker_ata_b.address,
        accounts.taker_ata_a.address != accounts.maker_ata_b.address,
        accounts.taker_ata_b.address != accounts.maker_ata_b.address,
    ensures
        held_amount(accounts.vault) matches Ok(amount) && {
            let plan = take_settled(accounts, escrow, escrow_key, taker_ata_a, maker_ata_b)->Ok_0;
            &&& tokens_credited(plan, accounts.taker_ata_a.address) == amount
            &&& tokens_credited(plan, accounts.vault.address) == -amount
            &&& tokens_credited(plan, accounts.maker_ata_b.address) == escrow.receive
            &&& tokens_credited(plan, accounts.taker_ata_b.address) == -escrow.receive
        },
{
    let amount = held_amount(accounts.vault)->Ok_0;
    let setup = take_setup(accounts, taker_ata_a, maker_ata_b);
    let exchange = take_exchange(accounts, escrow, amount);
    let close = closing(accounts.escrow, accounts.taker)->Ok_0;
    assert forall|account: Address| #[trigger]
        tokens_credited(setup + exchange + close, account) == tokens_credited(exchange, account) by {
        lemma_no_transfer_credits_nothing(setup, account);
        lemma_no_transfer_credits_nothing(close, account);
        lemma_tokens_credited_concat(setup, exchange, account);
        lemma_tokens_credited_concat(setup + exchange, close, account);
    }
    reveal_with_fuel(tokens_credited, 4);
    assert(exchange.drop_last().drop_last().drop_last().len() == 0);
}

} // verus!
