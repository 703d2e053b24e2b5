//! The kinds of account an operation meets: how each is checked before it is
//! trusted, how it is created where it may be, and how an account of this
//! program is closed.

use vstd::prelude::*;
use vstd::bytes::{spec_u64_from_le_bytes, u64_from_le_bytes};
use vstd::slice::slice_subrange;
use crate::account::Account;
use crate::action::{associated_seeds, associated_seeds_of, Action, Signer};
use crate::address::{
    canonical_address, created_view, derived_view, same_address, try_find_program_address, Address,
};
use crate::error::ProgramError;
use crate::programs::{
    ASSOCIATED_TOKEN_PROGRAM_ID, MINT_LEN, SYSTEM_PROGRAM_ID, TOKEN_2022_ACCOUNT_DISCRIMINATOR_OFFSET,
    TOKEN_ACCOUNT_LEN, TOKEN_PROGRAM_ID,
};
pub use crate::programs::{
    TOKEN2022_MINT_DISCRIMINATOR, TOKEN_2022_PROGRAM_ID, TOKEN_2022_TOKEN_ACCOUNT_DISCRIMINATOR,
};
use crate::rent::{rent_exempt_minimum, rent_minimum};
use crate::state::Escrow;

verus! {

/// A kind of account that can be recognised from the account alone.
pub trait AccountCheck {
    /// What `check` answers: `Ok` for an account of this kind, else the
    /// first rule that the account breaks.
    spec fn checked(account: &Account) -> Result<(), ProgramError>;

    /// Checks that `account` is of this kind.
    fn check(account: &Account) -> (r: Result<(), ProgramError>)
        ensures
            r == Self::checked(account),
    ;
}

/// What a record of the extended token program must look like: either the
/// size of the classic record, `classic_len`, or longer than the offset of
/// the type tag, with `tag` stored there.
pub open spec fn extended_record(data: Seq<u8>, classic_len: usize, tag: u8) -> bool {
    data.len() == classic_len || (data.len() > TOKEN_2022_ACCOUNT_DISCRIMINATOR_OFFSET
        && data[TOKEN_2022_ACCOUNT_DISCRIMINATOR_OFFSET as int] == tag)
}

/// Decides `extended_record` for the data of an account.
pub fn is_extended_record(data: &Vec<u8>, classic_len: usize, tag: u8) -> (r: bool)
    ensures
        r == extended_record(data@, classic_len, tag),
{
    if data.len() == classic_len {
        true
    } else if data.len() <= TOKEN_2022_ACCOUNT_DISCRIMINATOR_OFFSET {
        false
    } else {
        data[TOKEN_2022_ACCOUNT_DISCRIMINATOR_OFFSET] == tag
    }
}

/// An account that signed the transaction.
pub struct SignerAccount;

impl AccountCheck for SignerAccount {
    open spec fn checked(account: &Account) -> Result<(), ProgramError> {
        if account.is_signer {
            Ok(())
        } else {
            Err(ProgramError::MissingRequiredSignature)
        }
    }

    fn check(account: &Account) -> (r: Result<(), ProgramError>) {
        if !account.is_signer() {
            return Err(ProgramError::MissingRequiredSignature);
        }
        Ok(())
    }
}

/// An account owned by the ledger's system program.
pub struct SystemAccount;

impl AccountCheck for SystemAccount {
    open spec fn checked(account: &Account) -> Result<(), ProgramError> {
        if account.owner@ == SYSTEM_PROGRAM_ID@ {
            Ok(())
        } else {
            Err(ProgramError::IllegalOwner)
        }
    }

    fn check(account: &Account) -> (r: Result<(), ProgramError>) {
        if !account.owned_by(&SYSTEM_PROGRAM_ID) {
            return Err(ProgramError::IllegalOwner);
        }
        Ok(())
    }
}

/// A mint of the classic token program.
pub struct MintAccount;

impl AccountCheck for MintAccount {
    open spec fn checked(account: &Account) -> Result<(), ProgramError> {
        if account.owner@ != TOKEN_PROGRAM_ID@ {
            Err(ProgramError::IllegalOwner)
        } else if account.data@.len() != MINT_LEN {
            Err(ProgramError::InvalidAccountData)
        } else {
            Ok(())
        }
    }

    fn check(account: &Account) -> (r: Result<(), ProgramError>) {
        if !account.owned_by(&TOKEN_PROGRAM_ID) {
            return Err(ProgramError::IllegalOwner);
        }
        if account.data_len() != MINT_LEN {
            return Err(ProgramError::InvalidAccountData);
        }
        Ok(())
    }
}

/// A holding account of the classic token program.
pub struct TokenAccount;

impl AccountCheck for TokenAccount {
    open spec fn checked(account: &Account) -> Result<(), ProgramError> {
        if account.owner@ != TOKEN_PROGRAM_ID@ {
            Err(ProgramError::IllegalOwner)
        } else if account.data@.len() != TOKEN_ACCOUNT_LEN {
            Err(ProgramError::InvalidAccountData)
        } else {
            Ok(())
        }
    }

    fn check(account: &Account) -> (r: Result<(), ProgramError>) {
        if !account.owned_by(&TOKEN_PROGRAM_ID) {
            return Err(ProgramError::IllegalOwner);
        }
        if account.data_len() != TOKEN_ACCOUNT_LEN {
            return Err(ProgramError::InvalidAccountData);
        }
        Ok(())
    }
}

/// A mint of the extended token program.
pub struct Mint2022Account;

impl AccountCheck for Mint2022Account {
    open spec fn checked(account: &Account) -> Result<(), ProgramError> {
        if account.owner@ != TOKEN_2022_PROGRAM_ID@ {
            Err(ProgramError::IllegalOwner)
        } else if !extended_record(account.data@, MINT_LEN, TOKEN2022_MINT_DISCRIMINATOR) {
            Err(ProgramError::InvalidAccountData)
        } else {
            Ok(())
        }
    }

    fn check(account: &Account) -> (r: Result<(), ProgramError>) {
        if !account.owned_by(&TOKEN_2022_PROGRAM_ID) {
            return Err(ProgramError::IllegalOwner);
        }
        if !is_extended_record(&account.data, MINT_LEN, TOKEN2022_MINT_DISCRIMINATOR) {
            return Err(ProgramError::InvalidAccountData);
        }
        Ok(())
    }
}

/// A holding account of the extended token program.
pub struct TokenAccount2022Account;

impl AccountCheck for TokenAccount2022Account {
    open spec fn checked(account: &Account) -> Result<(), ProgramError> {
        if account.owner@ != TOKEN_2022_PROGRAM_ID@ {
            Err(ProgramError::IllegalOwner)
        } else if !extended_record(account.data@, TOKEN_ACCOUNT_LEN, TOKEN_2022_TOKEN_ACCOUNT_DISCRIMINATOR) {
            Err(ProgramError::InvalidAccountData)
        } else {
            Ok(())
        }
    }

    fn check(account: &Account) -> (r: Result<(), ProgramError>) {
        if !account.owned_by(&TOKEN_2022_PROGRAM_ID) {
            return Err(ProgramError::IllegalOwner);
        }
        if !is_extended_record(&account.data, TOKEN_ACCOUNT_LEN, TOKEN_2022_TOKEN_ACCOUNT_DISCRIMINATOR) {
            return Err(ProgramError::InvalidAccountData);
        }
        Ok(())
    }
}

/// A mint of either token program.
pub struct MintInterface;

impl AccountCheck for MintInterface {
    open spec fn checked(account: &Account) -> Result<(), ProgramError> {
        if account.owner@ == TOKEN_PROGRAM_ID@ {
            MintAccount::checked(account)
        } else if account.owner@ == TOKEN_2022_PROGRAM_ID@ {
            Mint2022Account::checked(account)
        } else {
            Err(ProgramError::IllegalOwner)
        }
    }

    fn check(account: &Account) -> (r: Result<(), ProgramError>) {
        let is_token_2022 = account.owned_by(&TOKEN_2022_PROGRAM_ID);
        let is_spl_token = account.owned_by(&TOKEN_PROGRAM_ID);
        if is_spl_token {
            MintAccount::check(account)
        } else if is_token_2022 {
            Mint2022Account::check(account)
        } else {
            Err(ProgramError::IllegalOwner)
        }
    }
}

/// A holding account of either token program.
pub struct TokenAccountInterface;

impl AccountCheck for TokenAccountInterface {
    open spec fn checked(account: &Account) -> Result<(), ProgramError> {
        if account.owner@ == TOKEN_PROGRAM_ID@ {
            TokenAccount::checked(account)
        } else if account.owner@ == TOKEN_2022_PROGRAM_ID@ {
            TokenAccount2022Account::checked(account)
        } else {
            Err(ProgramError::IllegalOwner)
        }
    }

    fn check(account: &Account) -> (r: Result<(), ProgramError>) {
        let is_owned_by_token_2022 = account.owned_by(&TOKEN_2022_PROGRAM_ID);
        let is_owned_by_spl_token = account.owned_by(&TOKEN_PROGRAM_ID);
        if is_owned_by_spl_token {
            TokenAccount::check(account)
        } else if is_owned_by_token_2022 {
            TokenAccount2022Account::check(account)
        } else {
            Err(ProgramError::IllegalOwner)
        }
    }
}

/// An account of this program that holds an escrow record.
pub struct ProgramAccount;

impl AccountCheck for ProgramAccount {
    open spec fn checked(account: &Account) -> Result<(), ProgramError> {
        if account.owner@ != crate::ID@ {
            Err(ProgramError::InvalidAccountOwner)
        } else if account.data@.len() != Escrow::LEN {
            Err(ProgramError::InvalidAccountData)
        } else {
            Ok(())
        }
    }

    fn check(account: &Account) -> (r: Result<(), ProgramError>) {
        if !account.owned_by(&crate::ID) {
            return Err(ProgramError::InvalidAccountOwner);
        }
        if account.data_len() != Escrow::LEN {
            return Err(ProgramError::InvalidAccountData);
        }
        Ok(())
    }
}

/// The actions of an operation, or the error that stops it, with the actions
/// as a sequence.
pub open spec fn plan_view(r: Result<Vec<Action>, ProgramError>) -> Result<Seq<Action>, ProgramError> {
    match r {
        Ok(plan) => Ok(plan@),
        Err(e) => Err(e),
    }
}

/// An address that may be absent, by value.
pub fn copied(address: Option<&Address>) -> (r: Option<Address>)
    ensures
        r == match address {
            Some(a) => Some(*a),
            None => None,
        },
{
    match address {
        Some(a) => Some(*a),
        None => None,
    }
}

/// The actions that create a mint owned by `token_program`: the system
/// service creates the account with the size of a mint and the balance that
/// exempts it from rent, then that token program makes it a mint.
pub open spec fn mint_creation(
    token_program: Address,
    account: &Account,
    payer: &Account,
    rent: &Account,
    decimals: u8,
    mint_authority: &Address,
    freeze_authority: Option<&Address>,
) -> Result<Seq<Action>, ProgramError> {
    match rent_minimum(rent, MINT_LEN as nat) {
        Err(e) => Err(e),
        Ok(lamports) => Ok(
            seq![
                Action::CreateAccount {
                    from: payer.address,
                    to: account.address,
                    lamports,
                    space: MINT_LEN as u64,
                    owner: token_program,
                    signer: None,
                },
                Action::InitializeMint2 {
                    program: token_program,
                    mint: account.address,
                    decimals,
                    mint_authority: *mint_authority,
                    freeze_authority: match freeze_authority {
                        Some(a) => Some(*a),
                        None => None,
                    },
                },
            ],
        ),
    }
}

/// Plans the creation of a mint owned by `token_program`.
pub fn create_mint(
    token_program: Address,
    account: &Account,
    payer: &Account,
    rent: &Account,
    decimals: u8,
    mint_authority: &Address,
    freeze_authority: Option<&Address>,
) -> (r: Result<Vec<Action>, ProgramError>)
    ensures
        plan_view(r) == mint_creation(
            token_program,
            account,
            payer,
            rent,
            decimals,
            mint_authority,
            freeze_authority,
        ),
{
    let lamports = match rent_exempt_minimum(rent, MINT_LEN) {
        Ok(lamports) => lamports,
        Err(e) => { return Err(e); },
    };
    let mut plan: Vec<Action> = Vec::new();
    plan.push(
        Action::CreateAccount {
            from: payer.address,
            to: account.address,
            lamports,
            space: MINT_LEN as u64,
            owner: token_program,
            signer: None,
        },
    );
    plan.push(
        Action::InitializeMint2 {
            program: token_program,
            mint: account.address,
            decimals,
            mint_authority: *mint_authority,
            freeze_authority: copied(freeze_authority),
        },
    );
    assert(plan_view(Ok(plan)) == mint_creation(
        token_program,
        account,
        payer,
        rent,
        decimals,
        mint_authority,
        freeze_authority,
    )) by {
        assert(plan@ =~= mint_creation(
            token_program,
            account,
            payer,
            rent,
            decimals,
            mint_authority,
            freeze_authority,
        )->Ok_0);
    }
    Ok(plan)
}

/// A kind of mint that can be created.
pub trait MintInit: AccountCheck {
    /// The actions that create a mint of this kind at `account`, or the
    /// error that stops the creation.
    spec fn initialized(
        account: &Account,
        payer: &Account,
        rent: &Account,
        decimals: u8,
        mint_authority: &Address,
        freeze_authority: Option<&Address>,
    ) -> Result<Seq<Action>, ProgramError>;

    /// Plans the creation of a mint at `account`, paid for by `payer`.
    fn init(
        account: &Account,
        payer: &Account,
        rent: &Account,
        decimals: u8,
        mint_authority: &Address,
        freeze_authority: Option<&Address>,
    ) -> (r: Result<Vec<Action>, ProgramError>)
        ensures
            plan_view(r) == Self::initialized(account, payer, rent, decimals, mint_authority, freeze_authority),
    ;

    /// Plans nothing for an account that already passes the check of its
    /// kind, and the creation of the mint for any other.
    fn init_if_needed(
        account: &Account,
        payer: &Account,
        rent: &Account,
        decimals: u8,
        mint_authority: &Address,
        freeze_authority: Option<&Address>,
    ) -> (r: Result<Vec<Action>, ProgramError>)
        ensures
            Self::checked(account) is Ok ==> plan_view(r) == Ok::<Seq<Action>, ProgramError>(Seq::empty()),
            Self::checked(account) is Err ==> plan_view(r) == Self::initialized(account, payer, rent, decimals, mint_authority, freeze_authority),
    ;
}

impl MintInit for MintAccount {
    open spec fn initialized(
        account: &Account,
        payer: &Account,
        rent: &Account,
        decimals: u8,
        mint_authority: &Address,
        freeze_authority: Option<&Address>,
    ) -> Result<Seq<Action>, ProgramError> {
        mint_creation(TOKEN_PROGRAM_ID, account, payer, rent, decimals, mint_authority, freeze_authority)
    }

    fn init(
        account: &Account,
        payer: &Account,
        rent: &Account,
        decimals: u8,
        mint_authority: &Address,
        freeze_authority: Option<&Address>,
    ) -> (r: Result<Vec<Action>, ProgramError>) {
        create_mint(TOKEN_PROGRAM_ID, account, payer, rent, decimals, mint_authority, freeze_authority)
    }

    fn init_if_needed(
        account: &Account,
        payer: &Account,
        rent: &Account,
        decimals: u8,
        mint_authority: &Address,
        freeze_authority: Option<&Address>,
    ) -> (r: Result<Vec<Action>, ProgramError>) {
        match Self::check(account) {
            Ok(_) => Ok(Vec::new()),
            Err(_) => Self::init(account, payer, rent, decimals, mint_authority, freeze_authority),
        }
    }
}

impl MintInit for Mint2022Account {
    open spec fn initialized(
        account: &Account,
        payer: &Account,
        rent: &Account,
        decimals: u8,
        mint_authority: &Address,
        freeze_authority: Option<&Address>,
    ) -> Result<Seq<Action>, ProgramError> {
        mint_creation(TOKEN_2022_PROGRAM_ID, account, payer, rent, decimals, mint_authority, freeze_authority)
    }

    fn init(
        account: &Account,
        payer: &Account,
        rent: &Account,
        decimals: u8,
        mint_authority: &Address,
        freeze_authority: Option<&Address>,
    ) -> (r: Result<Vec<Action>, ProgramError>) {
        create_mint(TOKEN_2022_PROGRAM_ID, account, payer, rent, decimals, mint_authority, freeze_authority)
    }

    fn init_if_needed(
        account: &Account,
        payer: &Account,
        rent: &Account,
        decimals: u8,
        mint_authority: &Address,
        freeze_authority: Option<&Address>,
    ) -> (r: Result<Vec<Action>, ProgramError>) {
        match Self::check(account) {
            Ok(_) => Ok(Vec::new()),
            Err(_) => Self::init(account, payer, rent, decimals, mint_authority, freeze_authority),
        }
    }
}

/// The actions that create a holding account owned by `token_program`: the
/// system service creates the account with the size of a holding record and
/// the balance that exempts it from rent, then that token program makes it a
/// holding account of `mint` for `owner`.
pub open spec fn holding_creation(
    token_program: Address,
    account: &Account,
    mint: &Account,
    payer: &Account,
    rent: &Account,
    owner: &Address,
) -> Result<Seq<Action>, ProgramError> {
    match rent_minimum(rent, TOKEN_ACCOUNT_LEN as nat) {
        Err(e) => Err(e),
        Ok(lamports) => Ok(
            seq![
                Action::CreateAccount {
                    from: payer.address,
                    to: account.address,
                    lamports,
                    space: TOKEN_ACCOUNT_LEN as u64,
                    owner: token_program,
                    signer: None,
                },
                Action::InitializeAccount3 {
                    program: token_program,
                    account: account.address,
                    mint: mint.address,
                    owner: *owner,
                },
            ],
        ),
    }
}

/// Plans the creation of a holding account owned by `token_program`.
pub fn create_holding(
    token_program: Address,
    account: &Account,
    mint: &Account,
    payer: &Account,
    rent: &Account,
    owner: &Address,
) -> (r: Result<Vec<Action>, ProgramError>)
    ensures
        plan_view(r) == holding_creation(token_program, account, mint, payer, rent, owner),
{
    let lamports = match rent_exempt_minimum(rent, TOKEN_ACCOUNT_LEN) {
        Ok(lamports) => lamports,
        Err(e) => { return Err(e); },
    };
    let mut plan: Vec<Action> = Vec::new();
    plan.push(
        Action::CreateAccount {
            from: payer.address,
            to: account.address,
            lamports,
            space: TOKEN_ACCOUNT_LEN as u64,
            owner: token_program,
            signer: None,
        },
    );
    plan.push(
        Action::InitializeAccount3 {
            program: token_program,
            account: account.address,
            mint: mint.address,
            owner: *owner,
        },
    );
    assert(plan@ =~= holding_creation(token_program, account, mint, payer, rent, owner)->Ok_0);
    Ok(plan)
}

/// A kind of holding account that can be created.
pub trait AccountInit: AccountCheck {
    /// The actions that create a holding account of this kind at `account`,
    /// or the error that stops the creation.
    spec fn initialized(account: &Account, mint: &Account, payer: &Account, rent: &Account, owner: &Address) -> Result<
        Seq<Action>,
        ProgramError,
    >;

    /// Plans the creation of a holding account of `mint` for `owner` at
    /// `account`, paid for by `payer`.
    fn init(account: &Account, mint: &Account, payer: &Account, rent: &Account, owner: &Address) -> (r: Result<
        Vec<Action>,
        ProgramError,
    >)
        ensures
            plan_view(r) == Self::initialized(account, mint, payer, rent, owner),
    ;

    /// Plans nothing for an account that already passes the check of its
    /// kind, and the creation of the holding account for any other.
    fn init_if_needed(account: &Account, mint: &Account, payer: &Account, rent: &Account, owner: &Address) -> (r:
        Result<Vec<Action>, ProgramError>)
        ensures
            Self::checked(account) is Ok ==> plan_view(r) == Ok::<Seq<Action>, ProgramError>(Seq::empty()),
            Self::checked(account) is Err ==> plan_view(r) == Self::initialized(account, mint, payer, rent, owner),
    ;
}

impl AccountInit for TokenAccount {
    open spec fn initialized(account: &Account, mint: &Account, payer: &Account, rent: &Account, owner: &Address) -> Result<
        Seq<Action>,
        ProgramError,
    > {
        holding_creation(TOKEN_PROGRAM_ID, account, mint, payer, rent, owner)
    }

    fn init(account: &Account, mint: &Account, payer: &Account, rent: &Account, owner: &Address) -> (r: Result<
        Vec<Action>,
        ProgramError,
    >) {
        create_holding(TOKEN_PROGRAM_ID, account, mint, payer, rent, owner)
    }

    fn init_if_needed(account: &Account, mint: &Account, payer: &Account, rent: &Account, owner: &Address) -> (r:
        Result<Vec<Action>, ProgramError>) {
        match Self::check(account) {
            Ok(_) => Ok(Vec::new()),
            Err(_) => Self::init(account, mint, payer, rent, owner),
        }
    }
}

impl AccountInit for TokenAccount2022Account {
    open spec fn initialized(account: &Account, mint: &Account, payer: &Account, rent: &Account, owner: &Address) -> Result<
        Seq<Action>,
        ProgramError,
    > {
        holding_creation(TOKEN_2022_PROGRAM_ID, account, mint, payer, rent, owner)
    }

    fn init_if_needed(account: &Account, mint: &Account, payer: &Account, rent: &Account, owner: &Address) -> (r:
        Result<Vec<Action>, ProgramError>) {
        match Self::check(account) {
            Ok(_) => Ok(Vec::new()),
            Err(_) => Self::init(account, mint, payer, rent, owner),
        }
    }

    fn init(account: &Account, mint: &Account, payer: &Account, rent: &Account, owner: &Address) -> (r: Result<
        Vec<Action>,
        ProgramError,
    >) {
        create_holding(TOKEN_2022_PROGRAM_ID, account, mint, payer, rent, owner)
    }
}

/// The canonical associated token address of `wallet` for `mint` under
/// `token_program`, with its bump seed, where there is one.
pub open spec fn associated_address(wallet: Address, token_program: Address, mint: Address) -> Option<(Seq<u8>, u8)> {
    canonical_address(associated_seeds(wallet@, token_program@, mint@), ASSOCIATED_TOKEN_PROGRAM_ID@)
}

/// Derives the canonical associated token address of `wallet` for `mint`
/// under `token_program`.
pub fn find_associated_address(wallet: &Address, token_program: &Address, mint: &Address) -> (r: Option<
    (Address, u8),
>)
    ensures
        derived_view(r) == associated_address(*wallet, *token_program, *mint),
{
    let seeds = associated_seeds_of(wallet, token_program, mint);
    try_find_program_address(&seeds, &ASSOCIATED_TOKEN_PROGRAM_ID)
}

/// Whether `account` lives at the derived address: `Ok` where an address
/// was derived and is the account's own, an invalid argument otherwise.
pub open spec fn address_matches(account: &Account, derived: Option<(Seq<u8>, u8)>) -> Result<(), ProgramError> {
    match derived {
        Some((address, _)) => if address == account.address@ {
            Ok(())
        } else {
            Err(ProgramError::InvalidArgument)
        },
        None => Err(ProgramError::InvalidArgument),
    }
}

/// What the check of an associated token account answers, given the address
/// derived for it: the account must pass as a holding account of the classic
/// token program, then live at the derived address.
pub open spec fn associated_checked(account: &Account, derived: Option<(Seq<u8>, u8)>) -> Result<(), ProgramError> {
    if TokenAccount::checked(account) is Err {
        TokenAccount::checked(account)
    } else {
        address_matches(account, derived)
    }
}

/// A kind of account that is recognised by the address derived for it.
pub trait AssociatedTokenAccountCheck {
    /// What `check` answers.
    spec fn checked(account: &Account, authority: &Account, mint: &Account, token_program: &Account) -> Result<
        (),
        ProgramError,
    >;

    /// Checks that `account` is the holding account of `authority` for
    /// `mint`.
    fn check(account: &Account, authority: &Account, mint: &Account, token_program: &Account) -> (r: Result<
        (),
        ProgramError,
    >)
        ensures
            r == Self::checked(account, authority, mint, token_program),
    ;
}

/// The holding account of a wallet for a mint, at the address derived from
/// the two and the token program.
pub struct AssociatedTokenAccount;

impl AssociatedTokenAccount {
    /// Checks `account` against the address derived for it.
    pub fn check_address(account: &Account, derived: Option<(Address, u8)>) -> (r: Result<(), ProgramError>)
        ensures
            r == address_matches(account, derived_view(derived)),
    {
        match derived {
            Some((address, _)) => {
                if same_address(&address, account.address()) {
                    Ok(())
                } else {
                    Err(ProgramError::InvalidArgument)
                }
            },
            None => Err(ProgramError::InvalidArgument),
        }
    }

    /// Plans the creation of the holding account of `owner` for `mint` at
    /// `account`, funded by `payer`.
    pub fn plan_creation(
        account: &Account,
        mint: &Account,
        payer: &Account,
        owner: &Account,
        system_program: &Account,
        token_program: &Account,
        signer: Option<Signer>,
    ) -> (r: Vec<Action>)
        ensures
            r@ == associated_creation(account, mint, payer, owner, system_program, token_program, signer),
    {
        let mut plan: Vec<Action> = Vec::new();
        plan.push(
            Action::CreateAssociatedTokenAccount {
                funding_account: payer.address,
                account: account.address,
                wallet: owner.address,
                mint: mint.address,
                system_program: system_program.address,
                token_program: token_program.address,
                signer,
            },
        );
        assert(plan@ =~= associated_creation(account, mint, payer, owner, system_program, token_program, signer));
        plan
    }

    /// Plans nothing where the check of `account` passed, and the creation of
    /// the holding account of `owner` for `mint` where it failed.
    pub fn plan_if_needed(
        checked: Result<(), ProgramError>,
        account: &Account,
        mint: &Account,
        payer: &Account,
        owner: &Account,
        system_program: &Account,
        token_program: &Account,
        signer: Option<Signer>,
    ) -> (r: Vec<Action>)
        ensures
            r@ == associated_if_needed(checked, account, mint, payer, owner, system_program, token_program, signer),
    {
        match checked {
            Ok(_) => Vec::new(),
            Err(_) => Self::plan_creation(account, mint, payer, owner, system_program, token_program, signer),
        }
    }

    /// Checks `account` as an associated token account, given the address
    /// derived for it.
    pub fn check_derived(account: &Account, derived: Option<(Address, u8)>) -> (r: Result<(), ProgramError>)
        ensures
            r == associated_checked(account, derived_view(derived)),
    {
        match TokenAccount::check(account) {
            Err(e) => Err(e),
            Ok(_) => Self::check_address(account, derived),
        }
    }
}

impl AssociatedTokenAccountCheck for AssociatedTokenAccount {
    open spec fn checked(account: &Account, authority: &Account, mint: &Account, token_program: &Account) -> Result<
        (),
        ProgramError,
    > {
        associated_checked(
            account,
            associated_address(authority.address, token_program.address, mint.address),
        )
    }

    fn check(account: &Account, authority: &Account, mint: &Account, token_program: &Account) -> (r: Result<
        (),
        ProgramError,
    >) {
        match TokenAccount::check(account) {
            Err(e) => Err(e),
            Ok(_) => {
                let derived = find_associated_address(authority.address(), token_program.address(), mint.address());
                Self::check_address(account, derived)
            },
        }
    }
}

/// The one action that creates the holding account of `owner` for `mint` at
/// `account`, funded by `payer`.
pub open spec fn associated_creation(
    account: &Account,
    mint: &Account,
    payer: &Account,
    owner: &Account,
    system_program: &Account,
    token_program: &Account,
    signer: Option<Signer>,
) -> Seq<Action> {
    seq![
        Action::CreateAssociatedTokenAccount {
            funding_account: payer.address,
            account: account.address,
            wallet: owner.address,
            mint: mint.address,
            system_program: system_program.address,
            token_program: token_program.address,
            signer,
        },
    ]
}

/// What `init_if_needed` plans for an associated token account, given the
/// outcome of its check: nothing where the check passed, the creation where it
/// failed.
pub open spec fn associated_if_needed(
    checked: Result<(), ProgramError>,
    account: &Account,
    mint: &Account,
    payer: &Account,
    owner: &Account,
    system_program: &Account,
    token_program: &Account,
    signer: Option<Signer>,
) -> Seq<Action> {
    if checked is Ok {
        Seq::empty()
    } else {
        associated_creation(account, mint, payer, owner, system_program, token_program, signer)
    }
}

/// A kind of account that is created at the address derived for it.
pub trait AssociatedTokenAccountInit: AssociatedTokenAccountCheck {
    /// Plans the creation of the holding account of `owner` for `mint`.
    fn init(
        account: &Account,
        mint: &Account,
        payer: &Account,
        owner: &Account,
        system_program: &Account,
        token_program: &Account,
    ) -> (r: Vec<Action>)
        ensures
            r@ == associated_creation(account, mint, payer, owner, system_program, token_program, None),
    ;

    /// Plans nothing for an account that already is the holding account of
    /// `owner` for `mint`, and its creation for any other.
    fn init_if_needed(
        account: &Account,
        mint: &Account,
        payer: &Account,
        owner: &Account,
        system_program: &Account,
        token_program: &Account,
    ) -> (r: Vec<Action>)
        ensures
            r@ == associated_if_needed(
                Self::checked(account, owner, mint, token_program),
                account,
                mint,
                payer,
                owner,
                system_program,
                token_program,
                None,
            ),
    ;

    /// Plans the creation of the holding account of `owner` for `mint`,
    /// signed for by `signer`.
    fn init_signed(
        account: &Account,
        mint: &Account,
        payer: &Account,
        owner: &Account,
        system_program: &Account,
        token_program: &Account,
        signer: Option<Signer>,
    ) -> (r: Vec<Action>)
        ensures
            r@ == associated_creation(account, mint, payer, owner, system_program, token_program, signer),
    ;

    /// Plans nothing for an account that already is the holding account of
    /// `owner` for `mint`, and its creation, signed for by `signer`, for any
    /// other.
    fn init_if_needed_signed(
        account: &Account,
        mint: &Account,
        payer: &Account,
        owner: &Account,
        system_program: &Account,
        token_program: &Account,
        signer: Option<Signer>,
    ) -> (r: Vec<Action>)
        ensures
            r@ == associated_if_needed(
                Self::checked(account, owner, mint, token_program),
                account,
                mint,
                payer,
                owner,
                system_program,
                token_program,
                signer,
            ),
    ;
}

impl AssociatedTokenAccountInit for AssociatedTokenAccount {
    fn init(
        account: &Account,
        mint: &Account,
        payer: &Account,
        owner: &Account,
        system_program: &Account,
        token_program: &Account,
    ) -> (r: Vec<Action>) {
        Self::plan_creation(account, mint, payer, owner, system_program, token_program, None)
    }

    fn init_if_needed(
        account: &Account,
        mint: &Account,
        payer: &Account,
        owner: &Account,
        system_program: &Account,
        token_program: &Account,
    ) -> (r: Vec<Action>) {
        let checked = Self::check(account, owner, mint, token_program);
        Self::plan_if_needed(checked, account, mint, payer, owner, system_program, token_program, None)
    }

    fn init_signed(
        account: &Account,
        mint: &Account,
        payer: &Account,
        owner: &Account,
        system_program: &Account,
        token_program: &Account,
        signer: Option<Signer>,
    ) -> (r: Vec<Action>) {
        Self::plan_creation(account, mint, payer, owner, system_program, token_program, signer)
    }

    fn init_if_needed_signed(
        account: &Account,
        mint: &Account,
        payer: &Account,
        owner: &Account,
        system_program: &Account,
        token_program: &Account,
        signer: Option<Signer>,
    ) -> (r: Vec<Action>) {
        let checked = Self::check(account, owner, mint, token_program);
        Self::plan_if_needed(checked, account, mint, payer, owner, system_program, token_program, signer)
    }
}

/// What the authentication of an escrow account answers, given the outcome
/// of deriving its address again from the seed material it stores: an
/// account that lives at the derived address passes; any other is not this
/// program's escrow, whether the derivation gave another address or none.
pub open spec fn authenticated(account: &Account, derived: Result<Seq<u8>, ProgramError>) -> Result<(), ProgramError> {
    if derived matches Ok(address) && address == account.address@ {
        Ok(())
    } else {
        Err(ProgramError::InvalidAccountOwner)
    }
}

impl ProgramAccount {
    /// Checks that `account` lives at the address derived again for it.
    pub fn check_address(account: &Account, derived: Result<Address, ProgramError>) -> (r: Result<(), ProgramError>)
        ensures
            r == authenticated(account, created_view(derived)),
    {
        match derived {
            Err(_) => Err(ProgramError::InvalidAccountOwner),
            Ok(address) => {
                if same_address(&address, account.address()) {
                    Ok(())
                } else {
                    Err(ProgramError::InvalidAccountOwner)
                }
            },
        }
    }
}

/// The action that creates an account of this program with `space` bytes
/// of data and the balance that exempts it from rent.
pub open spec fn program_account_creation(
    payer: &Account,
    account: &Account,
    rent: &Account,
    signer: Option<Signer>,
    space: usize,
) -> Result<Seq<Action>, ProgramError> {
    match rent_minimum(rent, space as nat) {
        Err(e) => Err(e),
        Ok(lamports) => Ok(
            seq![
                Action::CreateAccount {
                    from: payer.address,
                    to: account.address,
                    lamports,
                    space: space as u64,
                    owner: crate::ID,
                    signer,
                },
            ],
        ),
    }
}

/// A kind of account that this program creates for itself.
pub trait ProgramAccountInit {
    /// Plans the creation of `account`, owned by this program, paid for by
    /// `payer` and signed for by `signer`.
    fn init(payer: &Account, account: &Account, rent: &Account, signer: Option<Signer>, space: usize) -> (r: Result<
        Vec<Action>,
        ProgramError,
    >)
        ensures
            plan_view(r) == program_account_creation(payer, account, rent, signer, space),
    ;
}

impl ProgramAccountInit for ProgramAccount {
    fn init(payer: &Account, account: &Account, rent: &Account, signer: Option<Signer>, space: usize) -> (r: Result<
        Vec<Action>,
        ProgramError,
    >) {
        let lamports = match rent_exempt_minimum(rent, space) {
            Ok(lamports) => lamports,
            Err(e) => { return Err(e); },
        };
        let mut plan: Vec<Action> = Vec::new();
        plan.push(
            Action::CreateAccount {
                from: payer.address,
                to: account.address,
                lamports,
                space: space as u64,
                owner: crate::ID,
                signer,
            },
        );
        assert(plan@ =~= program_account_creation(payer, account, rent, signer, space)->Ok_0);
        Ok(plan)
    }
}

/// The four steps that close an account of this program, in the order in
/// which they must be taken: the tombstone goes into the first byte of the
/// data before the balance moves to `destination`, the data shrinks to that
/// one byte, and the account goes back to the system. An account without
/// data has no byte to mark and is refused.
pub open spec fn closing(account: &Account, destination: &Account) -> Result<Seq<Action>, ProgramError> {
    if account.data@.len() == 0 {
        Err(ProgramError::InvalidAccountData)
    } else {
        Ok(
            seq![
                Action::MarkClosed { account: account.address },
                Action::MoveLamports { from: account.address, to: destination.address },
                Action::Resize { account: account.address, len: 1 },
                Action::Release { account: account.address },
            ],
        )
    }
}

/// The balance of the destination once the whole balance of a closed
/// account has been added to it; a sum that 64 bits do not hold is an
/// overflow.
pub open spec fn credited(destination: u64, balance: u64) -> Result<u64, ProgramError> {
    if destination + balance <= u64::MAX {
        Ok((destination + balance) as u64)
    } else {
        Err(ProgramError::ArithmeticOverflow)
    }
}

/// Adds the whole balance of a closed account to that of its destination.
pub fn credit(destination: u64, balance: u64) -> (r: Result<u64, ProgramError>)
    ensures
        r == credited(destination, balance),
{
    match destination.checked_add(balance) {
        Some(sum) => Ok(sum),
        None => Err(ProgramError::ArithmeticOverflow),
    }
}

/// A kind of account that this program closes itself.
pub trait AccountClose {
    /// Plans the closing of `account`, whose balance goes to `destination`.
    fn close(account: &Account, destination: &Account) -> (r: Result<Vec<Action>, ProgramError>)
        ensures
            plan_view(r) == closing(account, destination),
    ;
}

impl AccountClose for ProgramAccount {
    fn close(account: &Account, destination: &Account) -> (r: Result<Vec<Action>, ProgramError>) {
        if account.is_data_empty() {
            return Err(ProgramError::InvalidAccountData);
        }
        let mut plan: Vec<Action> = Vec::new();
        plan.push(Action::MarkClosed { account: account.address });
        plan.push(Action::MoveLamports { from: account.address, to: destination.address });
        plan.push(Action::Resize { account: account.address, len: 1 });
        plan.push(Action::Release { account: account.address });
        assert(plan@ =~= closing(account, destination)->Ok_0);
        Ok(plan)
    }
}

/// The tokens that a holding account of the classic token program holds: the
/// 8 bytes that follow the mint and the owner in its record, low byte first.
/// An account of another owner or another size is invalid.
pub open spec fn held_amount(account: &Account) -> Result<u64, ProgramError> {
    if account.data@.len() != TOKEN_ACCOUNT_LEN || account.owner@ != TOKEN_PROGRAM_ID@ {
        Err(ProgramError::InvalidAccountData)
    } else {
        Ok(spec_u64_from_le_bytes(account.data@.subrange(64, 72)))
    }
}

/// Reads the tokens that a holding account holds.
pub fn token_amount(account: &Account) -> (r: Result<u64, ProgramError>)
    ensures
        r == held_amount(account),
{
    if account.data_len() != TOKEN_ACCOUNT_LEN {
        return Err(ProgramError::InvalidAccountData);
    }
    if !account.owned_by(&TOKEN_PROGRAM_ID) {
        return Err(ProgramError::InvalidAccountData);
    }
    Ok(u64_from_le_bytes(slice_subrange(account.data.as_slice(), 64, 72)))
}

/// A closed escrow stays closed. An account that was given back to the
/// system, and so is owned by the system program, is no account of this
/// program any more; neither is one whose data was shrunk to the tombstone.
pub proof fn lemma_closed_is_no_program_account(account: &Account)
    requires
        account.owner@ == SYSTEM_PROGRAM_ID@ || account.data@.len() <= 1,
    ensures
        ProgramAccount::checked(account) is Err,
        account.owner@ == SYSTEM_PROGRAM_ID@ ==> ProgramAccount::checked(account) == Err::<(), ProgramError>(
            ProgramError::InvalidAccountOwner,
        ),
{
    assert(crate::ID@[0] == 15);
    assert(SYSTEM_PROGRAM_ID@[0] == 0);
}

/// Creating an associated token account where it is needed is idempotent: for
/// an account that passes the check nothing is planned, so the account stays
/// as it is, passes the check again, and nothing is planned the second time
/// either. It is never created anew.
pub proof fn lemma_init_if_needed_idempotent(
    account: &Account,
    mint: &Account,
    payer: &Account,
    owner: &Account,
    system_program: &Account,
    token_program: &Account,
    signer: Option<Signer>,
)
    requires
        AssociatedTokenAccount::checked(account, owner, mint, token_program) is Ok,
    ensures
        associated_if_needed(
            AssociatedTokenAccount::checked(account, owner, mint, token_program),
            account,
            mint,
            payer,
            owner,
            system_program,
            token_program,
            signer,
        ) == Seq::<Action>::empty(),
{
}

} // verus!
