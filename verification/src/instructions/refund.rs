//! Cancelling an escrow: the maker takes the deposit back.

use vstd::prelude::*;
use crate::account::Account;
use crate::action::{
    lemma_no_transfer_credits_nothing, lemma_tokens_credited_concat, tokens_credited, Action, Signer,
};
use crate::address::{created_view, derived_view, same_address, Address};
use crate::error::ProgramError;
use crate::helpers::{
    associated_address, associated_checked, associated_if_needed, authenticated, closing,
    find_associated_address, held_amount, lemma_closed_is_no_program_account, plan_view, token_amount,
    AccountCheck, AccountClose,
    AssociatedTokenAccount, AssociatedTokenAccountCheck, MintInterface, ProgramAccount, SignerAccount,
};
use crate::instructions::take::escrow_signer;
use crate::programs::SYSTEM_PROGRAM_ID;
use crate::state::Escrow;

verus! {

/// The accounts of the operation, by role.
pub struct RefundAccounts<'a> {
    /// Who opened the escrow and now cancels it.
    pub maker: &'a Account,
    /// The account that holds the escrow record.
    pub escrow: &'a Account,
    /// The mint of the token deposited.
    pub mint_a: &'a Account,
    /// The account that holds the deposit.
    pub vault: &'a Account,
    /// The maker's holding account of token A.
    pub maker_ata_a: &'a Account,
    /// The system program.
    pub system_program: &'a Account,
    /// The token program.
    pub token_program: &'a Account,
}

/// What the validation of the accounts answers, given the address derived for
/// the vault. There must be eight accounts, the last of them unused; the
/// first rule broken decides: the maker signs, the escrow is an account of
/// this program, the mint is a mint of either token program, and the vault is
/// the escrow's associated account.
pub open spec fn refund_accounts_checked(accounts: Seq<Account>, vault: Option<(Seq<u8>, u8)>) -> Result<
    (),
    ProgramError,
> {
    if accounts.len() != 8 {
        Err(ProgramError::NotEnoughAccountKeys)
    } else if SignerAccount::checked(&accounts[0]) is Err {
        SignerAccount::checked(&accounts[0])
    } else if ProgramAccount::checked(&accounts[1]) is Err {
        ProgramAccount::checked(&accounts[1])
    } else if MintInterface::checked(&accounts[2]) is Err {
        MintInterface::checked(&accounts[2])
    } else {
        associated_checked(&accounts[3], vault)
    }
}

/// The address derived for the vault: the escrow's holding account of token
/// A.
pub open spec fn refund_vault(accounts: Seq<Account>) -> Option<(Seq<u8>, u8)> {
    associated_address(accounts[1].address, accounts[6].address, accounts[2].address)
}

impl<'a> RefundAccounts<'a> {
    /// The first seven of `accounts`, each in its role.
    pub open spec fn of(accounts: Seq<Account>) -> Self {
        RefundAccounts {
            maker: &accounts[0],
            escrow: &accounts[1],
            mint_a: &accounts[2],
            vault: &accounts[3],
            maker_ata_a: &accounts[4],
            system_program: &accounts[5],
            token_program: &accounts[6],
        }
    }

    /// Validates the accounts, given the address derived for the vault.
    pub fn validate(accounts: &'a [Account], vault: Option<(Address, u8)>) -> (r: Result<Self, ProgramError>)
        ensures
            match refund_accounts_checked(accounts@, derived_view(vault)) {
                Ok(_) => r is Ok && r->Ok_0 == RefundAccounts::of(accounts@),
                Err(e) => r is Err && r->Err_0 == e,
            },
    {
        if accounts.len() != 8 {
            return Err(ProgramError::NotEnoughAccountKeys);
        }
        let maker = &accounts[0];
        let escrow = &accounts[1];
        let mint_a = &accounts[2];
        let vault_account = &accounts[3];
        let maker_ata_a = &accounts[4];
        let system_program = &accounts[5];
        let token_program = &accounts[6];
        match SignerAccount::check(maker) {
            Err(e) => { return Err(e); },
            Ok(_) => {},
        }
        match ProgramAccount::check(escrow) {
            Err(e) => { return Err(e); },
            Ok(_) => {},
        }
        match MintInterface::check(mint_a) {
            Err(e) => { return Err(e); },
            Ok(_) => {},
        }
        match AssociatedTokenAccount::check_derived(vault_account, vault) {
            Err(e) => { return Err(e); },
            Ok(_) => {},
        }
        Ok(Self { maker, escrow, mint_a, vault: vault_account, maker_ata_a, system_program, token_program })
    }

    /// Takes the accounts of the operation from the accounts of the
    /// transaction and validates them.
    pub fn try_from(accounts: &'a [Account]) -> (r: Result<Self, ProgramError>)
        ensures
            match refund_accounts_checked(accounts@, refund_vault(accounts@)) {
                Ok(_) => r is Ok && r->Ok_0 == RefundAccounts::of(accounts@),
                Err(e) => r is Err && r->Err_0 == e,
            },
    {
        if accounts.len() != 8 {
            return Err(ProgramError::NotEnoughAccountKeys);
        }
        let vault = find_associated_address(accounts[1].address(), accounts[6].address(), accounts[2].address());
        Self::validate(accounts, vault)
    }
}

/// A validated request to cancel an escrow.
pub struct Refund<'a> {
    /// The accounts of the operation.
    pub accounts: RefundAccounts<'a>,
}

/// The actions that give the deposit back: the whole deposit goes from the
/// vault to the maker, signed for by the escrow; the vault is closed and its
/// balance goes to the maker, signed for by the escrow.
pub open spec fn refund_return(accounts: RefundAccounts, escrow: Escrow, amount: u64) -> Seq<Action> {
    seq![
        Action::Transfer {
            from: accounts.vault.address,
            to: accounts.maker_ata_a.address,
            authority: accounts.escrow.address,
            amount,
            signer: Some(escrow_signer(accounts.maker, escrow)),
        },
        Action::CloseAccount {
            account: accounts.vault.address,
            destination: accounts.maker.address,
            authority: accounts.escrow.address,
            signer: Some(escrow_signer(accounts.maker, escrow)),
        },
    ]
}

/// The action with which the maker's holding account of token A is created
/// where it is missing, paid for by the maker, given the outcome of its check.
pub open spec fn refund_setup(accounts: RefundAccounts, maker_ata_a: Result<(), ProgramError>) -> Seq<Action> {
    associated_if_needed(
        maker_ata_a,
        accounts.maker_ata_a,
        accounts.mint_a,
        accounts.maker,
        accounts.maker,
        accounts.system_program,
        accounts.token_program,
        None,
    )
}

/// What cancelling comes to, given the record read from the escrow account,
/// the address derived again for the escrow and the outcome of the check of
/// the maker's holding account. The escrow account must live at the derived
/// address, the caller must be the maker that the record names, else the
/// escrow is not the caller's, and the vault must be a holding account; then
/// the plan creates the holding account where it is missing, gives the
/// deposit back and closes the escrow account, whose balance goes to the
/// maker.
pub open spec fn refund_settled(
    accounts: RefundAccounts,
    escrow: Escrow,
    escrow_key: Result<Seq<u8>, ProgramError>,
    maker_ata_a: Result<(), ProgramError>,
) -> Result<Seq<Action>, ProgramError> {
    match authenticated(accounts.escrow, escrow_key) {
        Err(e) => Err(e),
        Ok(_) => if accounts.maker.address@ != escrow.maker@ {
            Err(ProgramError::InvalidAccountOwner)
        } else {
            match held_amount(accounts.vault) {
                Err(e) => Err(e),
                Ok(amount) => match closing(accounts.escrow, accounts.maker) {
                    Err(e) => Err(e),
                    Ok(close) => Ok(
                        refund_setup(accounts, maker_ata_a) + refund_return(accounts, escrow, amount) + close,
                    ),
                },
            }
        },
    }
}

/// What cancelling comes to, all told: an escrow account whose data is no
/// record is invalid; any other is cancelled on the record it stores.
pub open spec fn refund_processed(accounts: RefundAccounts) -> Result<Seq<Action>, ProgramError> {
    match Escrow::loaded(accounts.escrow.data@) {
        Err(e) => Err(e),
        Ok(escrow) => refund_settled(
            accounts,
            escrow,
            escrow_signer(accounts.maker, escrow).spec_address(),
            AssociatedTokenAccount::checked(
                accounts.maker_ata_a,
                accounts.maker,
                accounts.mint_a,
                accounts.token_program,
            ),
        ),
    }
}

/// What the instruction that cancels an escrow comes to on `accounts`: the
/// error of the validation, or the plan of the cancellation.
pub open spec fn refund_outcome(accounts: Seq<Account>) -> Result<Seq<Action>, ProgramError> {
    match refund_accounts_checked(accounts, refund_vault(accounts)) {
        Err(e) => Err(e),
        Ok(_) => refund_processed(RefundAccounts::of(accounts)),
    }
}

impl<'a> Refund<'a> {
    /// The first byte of the instruction that cancels an escrow.
    pub const DISCRIMINATOR: u8 = 2;

    /// Validates the accounts.
    pub fn try_from(accounts: &'a [Account]) -> (r: Result<Self, ProgramError>)
        ensures
            match refund_accounts_checked(accounts@, refund_vault(accounts@)) {
                Ok(_) => r is Ok && r->Ok_0.accounts == RefundAccounts::of(accounts@),
                Err(e) => r is Err && r->Err_0 == e,
            },
    {
        match RefundAccounts::try_from(accounts) {
            Ok(accounts) => Ok(Self { accounts }),
            Err(e) => Err(e),
        }
    }

    /// Plans the cancellation, given the record read from the escrow account,
    /// the address derived again for the escrow and the outcome of the check
    /// of the maker's holding account.
    pub fn settle(
        &self,
        escrow: &Escrow,
        escrow_key: Result<Address, ProgramError>,
        maker_ata_a: Result<(), ProgramError>,
    ) -> (r: Result<Vec<Action>, ProgramError>)
        ensures
            plan_view(r) == refund_settled(self.accounts, *escrow, created_view(escrow_key), maker_ata_a),
    {
        match ProgramAccount::check_address(self.accounts.escrow, escrow_key) {
            Err(e) => { return Err(e); },
            Ok(_) => {},
        }
        if !same_address(self.accounts.maker.address(), &escrow.maker) {
            return Err(ProgramError::InvalidAccountOwner);
        }
        let signer = Signer { maker: self.accounts.maker.address, seed: escrow.seed, bump: escrow.bump };
        let amount = match token_amount(self.accounts.vault) {
            Ok(amount) => amount,
            Err(e) => { return Err(e); },
        };
        let mut close = match ProgramAccount::close(self.accounts.escrow, self.accounts.maker) {
            Ok(close) => close,
            Err(e) => { return Err(e); },
        };
        let mut plan = AssociatedTokenAccount::plan_if_needed(
            maker_ata_a,
            self.accounts.maker_ata_a,
            self.accounts.mint_a,
            self.accounts.maker,
            self.accounts.maker,
            self.accounts.system_program,
            self.accounts.token_program,
            None,
        );
        let ghost setup = plan@;
        plan.push(
            Action::Transfer {
                from: self.accounts.vault.address,
                to: self.accounts.maker_ata_a.address,
                authority: self.accounts.escrow.address,
                amount,
                signer: Some(signer),
            },
        );
        plan.push(
            Action::CloseAccount {
                account: self.accounts.vault.address,
                destination: self.accounts.maker.address,
                authority: self.accounts.escrow.address,
                signer: Some(signer),
            },
        );
        assert(plan@ =~= setup + refund_return(self.accounts, *escrow, amount));
        plan.append(&mut close);
        Ok(plan)
    }

    /// Plans the cancellation.
    pub fn process(&self) -> (r: Result<Vec<Action>, ProgramError>)
        ensures
            plan_view(r) == refund_processed(self.accounts),
    {
        let escrow = match Escrow::load(self.accounts.escrow.data.as_slice()) {
            Ok(escrow) => escrow,
            Err(e) => { return Err(e); },
        };
        let signer = Signer { maker: self.accounts.maker.address, seed: escrow.seed, bump: escrow.bump };
        let escrow_key = signer.address();
        let maker_ata_a = AssociatedTokenAccount::check(
            self.accounts.maker_ata_a,
            self.accounts.maker,
            self.accounts.mint_a,
            self.accounts.token_program,
        );
        self.settle(&escrow, escrow_key, maker_ata_a)
    }
}

/// Only the maker cancels an escrow, and only an escrow of this program.
/// Cancelling fails where the maker did not sign, where the escrow account is
/// not owned by this program or has not the size of a record, where the
/// escrow account does not live at the address that the caller's own address
/// derives with the stored seed material, and where the caller is not the
/// maker that the record names. A failure plans no action, so that no token
/// leaves the vault and no account is closed.
pub proof fn lemma_refund_rejects(accounts: Seq<Account>)
    ensures
        !accounts[0].is_signer ==> refund_outcome(accounts) is Err,
        accounts.len() == 8 && !accounts[0].is_signer ==> refund_outcome(accounts) == Err::<
            Seq<Action>,
            ProgramError,
        >(ProgramError::MissingRequiredSignature),
        ProgramAccount::checked(&accounts[1]) is Err ==> refund_outcome(accounts) is Err,
        escrow_signer(&accounts[0], Escrow::stored_in(accounts[1].data@)).spec_address() != Ok::<
            Seq<u8>,
            ProgramError,
        >(accounts[1].address@) ==> refund_outcome(accounts) is Err,
        accounts[0].address@ != Escrow::stored_in(accounts[1].data@).maker@ ==> refund_outcome(accounts) is Err,
        refund_accounts_checked(accounts, refund_vault(accounts)) is Ok && (escrow_signer(
            &accounts[0],
            Escrow::stored_in(accounts[1].data@),
        ).spec_address() != Ok::<Seq<u8>, ProgramError>(accounts[1].address@) || accounts[0].address@
            != Escrow::stored_in(accounts[1].data@).maker@) ==> refund_outcome(accounts) == Err::<
            Seq<Action>,
            ProgramError,
        >(ProgramError::InvalidAccountOwner),
{
}

/// Whoever cancels an escrow is its maker: the plan of a cancellation exists
/// only for a caller whose address the record names as the maker's, whatever
/// address was derived and whatever the other accounts hold.
pub proof fn lemma_refund_is_the_maker_s(
    accounts: RefundAccounts,
    escrow: Escrow,
    escrow_key: Result<Seq<u8>, ProgramError>,
    maker_ata_a: Result<(), ProgramError>,
)
    requires
        refund_settled(accounts, escrow, escrow_key, maker_ata_a) is Ok,
    ensures
        accounts.maker.address@ == escrow.maker@,
        escrow_key == Ok::<Seq<u8>, ProgramError>(accounts.escrow.address@),
{
}

/// An escrow is cancelled at most once, and not after it was settled: once
/// its account was closed, and so is owned by the system program or holds no
/// record any more, cancelling it fails and plans no action.
pub proof fn lemma_refund_of_closed_escrow_fails(accounts: Seq<Account>)
    requires
        accounts[1].owner@ == SYSTEM_PROGRAM_ID@ || accounts[1].data@.len() <= 1,
    ensures
        refund_outcome(accounts) is Err,
{
    lemma_closed_is_no_program_account(&accounts[1]);
}

/// A cancellation gives the whole deposit back. Where the vault and the
/// maker's holding account are two accounts, the plan adds to the maker's
/// holding account what the vault holds and takes as much from the vault.
pub proof fn lemma_refund_returns(
    accounts: RefundAccounts,
    escrow: Escrow,
    escrow_key: Result<Seq<u8>, ProgramError>,
    maker_ata_a: Result<(), ProgramError>,
)
    requires
        refund_settled(accounts, escrow, escrow_key, maker_ata_a) is Ok,
        accounts.vault.address != accounts.maker_ata_a.address,
    ensures
        held_amount(accounts.vault) matches Ok(amount) && {
            let plan = refund_settled(accounts, escrow, escrow_key, maker_ata_a)->Ok_0;
            &&& tokens_credited(plan, accounts.maker_ata_a.address) == amount
            &&& tokens_credited(plan, accounts.vault.address) == -amount
        },
{
    let amount = held_amount(accounts.vault)->Ok_0;
    let setup = refund_setup(accounts, maker_ata_a);
    let giving = refund_return(accounts, escrow, amount);
    let close = closing(accounts.escrow, accounts.maker)->Ok_0;
    assert forall|account: Address| #[trigger]
        tokens_credited(setup + giving + close, account) == tokens_credited(giving, account) by {
        lemma_no_transfer_credits_nothing(setup, account);
        lemma_no_transfer_credits_nothing(close, account);
        lemma_tokens_credited_concat(setup, giving, account);
        lemma_tokens_credited_concat(setup + giving, close, account);
    }
    reveal_with_fuel(tokens_credited, 3);
    assert(giving.drop_last().drop_last().len() == 0);
}

} // verus!
