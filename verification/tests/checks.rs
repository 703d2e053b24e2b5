use escrow::account::Account;
use escrow::action::{Action, Signer};
use escrow::error::ProgramError;
use escrow::helpers::{
    credit, find_associated_address, is_extended_record, token_amount, AccountCheck, AccountClose, AccountInit,
    AssociatedTokenAccount, AssociatedTokenAccountCheck, AssociatedTokenAccountInit, Mint2022Account,
    MintAccount, MintInit, MintInterface, ProgramAccount, ProgramAccountInit, SignerAccount,
    SystemAccount, TokenAccount, TokenAccount2022Account, TokenAccountInterface,
};
use escrow::programs::{
    RENT_ID, SYSTEM_PROGRAM_ID, TOKEN_2022_PROGRAM_ID, TOKEN_PROGRAM_ID,
};

fn account(address: u8, owner: [u8; 32], len: usize) -> Account {
    Account { address: [address; 32], owner, lamports: 1_000_000, data: vec![0u8; len], is_signer: false }
}

fn tagged(owner: [u8; 32], len: usize, tag: u8) -> Account {
    let mut a = account(1, owner, len);
    a.data[167] = tag;
    a
}

fn rent() -> Account {
    Account { address: RENT_ID, owner: [0u8; 32], lamports: 1, data: 6960u64.to_le_bytes().to_vec(), is_signer: false }
}

#[test]
fn signer_must_have_signed() {
    let mut a = account(1, SYSTEM_PROGRAM_ID, 0);
    assert_eq!(SignerAccount::check(&a), Err(ProgramError::MissingRequiredSignature));
    a.is_signer = true;
    assert_eq!(SignerAccount::check(&a), Ok(()));
}

#[test]
fn system_account_is_owned_by_the_system() {
    assert_eq!(SystemAccount::check(&account(1, SYSTEM_PROGRAM_ID, 0)), Ok(()));
    assert_eq!(SystemAccount::check(&account(1, SYSTEM_PROGRAM_ID, 40)), Ok(()));
    assert_eq!(SystemAccount::check(&account(1, TOKEN_PROGRAM_ID, 0)), Err(ProgramError::IllegalOwner));
    assert_eq!(SystemAccount::check(&account(1, escrow::ID, 0)), Err(ProgramError::IllegalOwner));
}

#[test]
fn classic_mint_has_owner_and_size() {
    assert_eq!(MintAccount::check(&account(1, TOKEN_PROGRAM_ID, 82)), Ok(()));
    assert_eq!(MintAccount::check(&account(1, TOKEN_2022_PROGRAM_ID, 82)), Err(ProgramError::IllegalOwner));
    assert_eq!(MintAccount::check(&account(1, SYSTEM_PROGRAM_ID, 81)), Err(ProgramError::IllegalOwner));
    assert_eq!(MintAccount::check(&account(1, TOKEN_PROGRAM_ID, 81)), Err(ProgramError::InvalidAccountData));
    assert_eq!(MintAccount::check(&account(1, TOKEN_PROGRAM_ID, 83)), Err(ProgramError::InvalidAccountData));
    assert_eq!(MintAccount::check(&account(1, TOKEN_PROGRAM_ID, 165)), Err(ProgramError::InvalidAccountData));
    assert_eq!(MintAccount::check(&account(1, TOKEN_PROGRAM_ID, 0)), Err(ProgramError::InvalidAccountData));
}

#[test]
fn classic_holding_has_owner_and_size() {
    assert_eq!(TokenAccount::check(&account(1, TOKEN_PROGRAM_ID, 165)), Ok(()));
    assert_eq!(TokenAccount::check(&account(1, TOKEN_2022_PROGRAM_ID, 165)), Err(ProgramError::IllegalOwner));
    assert_eq!(TokenAccount::check(&account(1, TOKEN_PROGRAM_ID, 164)), Err(ProgramError::InvalidAccountData));
    assert_eq!(TokenAccount::check(&account(1, TOKEN_PROGRAM_ID, 166)), Err(ProgramError::InvalidAccountData));
    assert_eq!(TokenAccount::check(&account(1, TOKEN_PROGRAM_ID, 82)), Err(ProgramError::InvalidAccountData));
}

#[test]
fn extended_record_is_classic_size_or_tagged() {
    assert!(is_extended_record(&vec![0u8; 82], 82, 1));
    assert!(!is_extended_record(&vec![0u8; 82], 165, 2));
    assert!(!is_extended_record(&vec![0u8; 167], 82, 1));
    let mut data = vec![0u8; 168];
    assert!(!is_extended_record(&data, 82, 1));
    data[167] = 1;
    assert!(is_extended_record(&data, 82, 1));
    assert!(!is_extended_record(&data, 82, 2));
    data[167] = 2;
    assert!(is_extended_record(&data, 165, 2));
    assert!(!is_extended_record(&vec![], 82, 1));
}

#[test]
fn extended_mint_has_owner_and_size_or_tag() {
    assert_eq!(Mint2022Account::check(&account(1, TOKEN_2022_PROGRAM_ID, 82)), Ok(()));
    assert_eq!(Mint2022Account::check(&tagged(TOKEN_2022_PROGRAM_ID, 200, 1)), Ok(()));
    assert_eq!(Mint2022Account::check(&tagged(TOKEN_2022_PROGRAM_ID, 168, 1)), Ok(()));
    assert_eq!(Mint2022Account::check(&account(1, TOKEN_PROGRAM_ID, 82)), Err(ProgramError::IllegalOwner));
    assert_eq!(Mint2022Account::check(&tagged(TOKEN_PROGRAM_ID, 200, 1)), Err(ProgramError::IllegalOwner));
    assert_eq!(
        Mint2022Account::check(&tagged(TOKEN_2022_PROGRAM_ID, 200, 2)),
        Err(ProgramError::InvalidAccountData)
    );
    assert_eq!(
        Mint2022Account::check(&tagged(TOKEN_2022_PROGRAM_ID, 200, 0)),
        Err(ProgramError::InvalidAccountData)
    );
    assert_eq!(
        Mint2022Account::check(&account(1, TOKEN_2022_PROGRAM_ID, 167)),
        Err(ProgramError::InvalidAccountData)
    );
    assert_eq!(
        Mint2022Account::check(&account(1, TOKEN_2022_PROGRAM_ID, 81)),
        Err(ProgramError::InvalidAccountData)
    );
    assert_eq!(
        Mint2022Account::check(&account(1, TOKEN_2022_PROGRAM_ID, 0)),
        Err(ProgramError::InvalidAccountData)
    );
}

#[test]
fn extended_holding_has_owner_and_size_or_tag() {
    assert_eq!(TokenAccount2022Account::check(&account(1, TOKEN_2022_PROGRAM_ID, 165)), Ok(()));
    assert_eq!(TokenAccount2022Account::check(&tagged(TOKEN_2022_PROGRAM_ID, 300, 2)), Ok(()));
    assert_eq!(
        TokenAccount2022Account::check(&account(1, TOKEN_PROGRAM_ID, 165)),
        Err(ProgramError::IllegalOwner)
    );
    assert_eq!(
        TokenAccount2022Account::check(&tagged(TOKEN_2022_PROGRAM_ID, 300, 1)),
        Err(ProgramError::InvalidAccountData)
    );
    assert_eq!(
        TokenAccount2022Account::check(&account(1, TOKEN_2022_PROGRAM_ID, 166)),
        Err(ProgramError::InvalidAccountData)
    );
    assert_eq!(
        TokenAccount2022Account::check(&account(1, TOKEN_2022_PROGRAM_ID, 82)),
        Err(ProgramError::InvalidAccountData)
    );
}

#[test]
fn mint_interface_takes_either_program() {
    assert_eq!(MintInterface::check(&account(1, TOKEN_PROGRAM_ID, 82)), Ok(()));
    assert_eq!(MintInterface::check(&account(1, TOKEN_2022_PROGRAM_ID, 82)), Ok(()));
    assert_eq!(MintInterface::check(&tagged(TOKEN_2022_PROGRAM_ID, 250, 1)), Ok(()));
    assert_eq!(MintInterface::check(&tagged(TOKEN_PROGRAM_ID, 250, 1)), Err(ProgramError::InvalidAccountData));
    assert_eq!(MintInterface::check(&tagged(TOKEN_2022_PROGRAM_ID, 250, 2)), Err(ProgramError::InvalidAccountData));
    assert_eq!(MintInterface::check(&account(1, TOKEN_PROGRAM_ID, 83)), Err(ProgramError::InvalidAccountData));
    assert_eq!(MintInterface::check(&account(1, SYSTEM_PROGRAM_ID, 82)), Err(ProgramError::IllegalOwner));
    assert_eq!(MintInterface::check(&account(1, escrow::ID, 82)), Err(ProgramError::IllegalOwner));
}

#[test]
fn holding_interface_takes_either_program() {
    assert_eq!(TokenAccountInterface::check(&account(1, TOKEN_PROGRAM_ID, 165)), Ok(()));
    assert_eq!(TokenAccountInterface::check(&account(1, TOKEN_2022_PROGRAM_ID, 165)), Ok(()));
    assert_eq!(TokenAccountInterface::check(&tagged(TOKEN_2022_PROGRAM_ID, 250, 2)), Ok(()));
    assert_eq!(
        TokenAccountInterface::check(&tagged(TOKEN_PROGRAM_ID, 250, 2)),
        Err(ProgramError::InvalidAccountData)
    );
    assert_eq!(
        TokenAccountInterface::check(&tagged(TOKEN_2022_PROGRAM_ID, 250, 1)),
        Err(ProgramError::InvalidAccountData)
    );
    assert_eq!(TokenAccountInterface::check(&account(1, SYSTEM_PROGRAM_ID, 165)), Err(ProgramError::IllegalOwner));
}

#[test]
fn interface_agrees_with_the_check_it_dispatches_to() {
    for len in [0usize, 81, 82, 83, 165, 167, 168, 200] {
        for tag in [0u8, 1, 2] {
            let mut classic = account(1, TOKEN_PROGRAM_ID, len);
            let mut extended = account(1, TOKEN_2022_PROGRAM_ID, len);
            if len > 167 {
                classic.data[167] = tag;
                extended.data[167] = tag;
            }
            assert_eq!(MintInterface::check(&classic), MintAccount::check(&classic));
            assert_eq!(MintInterface::check(&extended), Mint2022Account::check(&extended));
            assert_eq!(TokenAccountInterface::check(&classic), TokenAccount::check(&classic));
            assert_eq!(TokenAccountInterface::check(&extended), TokenAccount2022Account::check(&extended));
        }
    }
}

#[test]
fn program_account_has_owner_and_record_size() {
    assert_eq!(ProgramAccount::check(&account(1, escrow::ID, 113)), Ok(()));
    assert_eq!(ProgramAccount::check(&account(1, SYSTEM_PROGRAM_ID, 113)), Err(ProgramError::InvalidAccountOwner));
    assert_eq!(ProgramAccount::check(&account(1, TOKEN_PROGRAM_ID, 113)), Err(ProgramError::InvalidAccountOwner));
    assert_eq!(ProgramAccount::check(&account(1, escrow::ID, 112)), Err(ProgramError::InvalidAccountData));
    assert_eq!(ProgramAccount::check(&account(1, escrow::ID, 114)), Err(ProgramError::InvalidAccountData));
    assert_eq!(ProgramAccount::check(&account(1, escrow::ID, 0)), Err(ProgramError::InvalidAccountData));
}

#[test]
fn program_account_address_is_authenticated() {
    let a = account(4, escrow::ID, 113);
    assert_eq!(ProgramAccount::check_address(&a, Ok([4u8; 32])), Ok(()));
    assert_eq!(ProgramAccount::check_address(&a, Ok([5u8; 32])), Err(ProgramError::InvalidAccountOwner));
    assert_eq!(
        ProgramAccount::check_address(&a, Err(ProgramError::InvalidSeeds)),
        Err(ProgramError::InvalidAccountOwner)
    );
    assert_eq!(
        ProgramAccount::check_address(&a, Err(ProgramError::MaxSeedLengthExceeded)),
        Err(ProgramError::InvalidAccountOwner)
    );
}

#[test]
fn associated_account_lives_at_the_derived_address() {
    let holding = account(7, TOKEN_PROGRAM_ID, 165);
    assert_eq!(AssociatedTokenAccount::check_address(&holding, Some(([7u8; 32], 255))), Ok(()));
    assert_eq!(AssociatedTokenAccount::check_address(&holding, Some(([7u8; 32], 0))), Ok(()));
    assert_eq!(
        AssociatedTokenAccount::check_address(&holding, Some(([8u8; 32], 255))),
        Err(ProgramError::InvalidArgument)
    );
    assert_eq!(AssociatedTokenAccount::check_address(&holding, None), Err(ProgramError::InvalidArgument));
    assert_eq!(AssociatedTokenAccount::check_derived(&holding, Some(([7u8; 32], 255))), Ok(()));
    assert_eq!(
        AssociatedTokenAccount::check_derived(&holding, Some(([8u8; 32], 255))),
        Err(ProgramError::InvalidArgument)
    );
    assert_eq!(
        AssociatedTokenAccount::check_derived(&account(7, TOKEN_2022_PROGRAM_ID, 165), Some(([7u8; 32], 255))),
        Err(ProgramError::IllegalOwner)
    );
    assert_eq!(
        AssociatedTokenAccount::check_derived(&account(7, TOKEN_PROGRAM_ID, 82), Some(([7u8; 32], 255))),
        Err(ProgramError::InvalidAccountData)
    );
    assert_eq!(
        AssociatedTokenAccount::check_derived(&account(7, TOKEN_PROGRAM_ID, 82), None),
        Err(ProgramError::InvalidAccountData)
    );
}

#[test]
fn associated_account_is_checked_against_its_authority() {
    let wallet = account(20, SYSTEM_PROGRAM_ID, 0);
    let other = account(21, SYSTEM_PROGRAM_ID, 0);
    let mint = account(22, TOKEN_PROGRAM_ID, 82);
    let token_program = account(0, [0u8; 32], 0);
    let token_program = Account { address: TOKEN_PROGRAM_ID, ..token_program };
    let (at, _) = find_associated_address(&wallet.address, &TOKEN_PROGRAM_ID, &mint.address).unwrap();
    let mut holding = account(0, TOKEN_PROGRAM_ID, 165);
    holding.address = at;
    assert_eq!(AssociatedTokenAccount::check(&holding, &wallet, &mint, &token_program), Ok(()));
    assert_eq!(
        AssociatedTokenAccount::check(&holding, &other, &mint, &token_program),
        Err(ProgramError::InvalidArgument)
    );
    assert_eq!(
        AssociatedTokenAccount::check(&holding, &wallet, &other, &token_program),
        Err(ProgramError::InvalidArgument)
    );
    assert_eq!(
        AssociatedTokenAccount::check(&holding, &wallet, &mint, &other),
        Err(ProgramError::InvalidArgument)
    );
    holding.data.push(0);
    assert_eq!(
        AssociatedTokenAccount::check(&holding, &wallet, &mint, &token_program),
        Err(ProgramError::InvalidAccountData)
    );
    holding.data.pop();
    holding.owner = SYSTEM_PROGRAM_ID;
    assert_eq!(
        AssociatedTokenAccount::check(&holding, &wallet, &mint, &token_program),
        Err(ProgramError::IllegalOwner)
    );
}

fn creation(payer: &Account, at: &Account, wallet: &Account, mint: &Account, signer: Option<Signer>) -> Action {
    Action::CreateAssociatedTokenAccount {
        funding_account: payer.address,
        account: at.address,
        wallet: wallet.address,
        mint: mint.address,
        system_program: SYSTEM_PROGRAM_ID,
        token_program: TOKEN_PROGRAM_ID,
        signer,
    }
}

#[test]
fn associated_account_is_created_only_where_missing() {
    let wallet = account(20, SYSTEM_PROGRAM_ID, 0);
    let payer = account(21, SYSTEM_PROGRAM_ID, 0);
    let mint = account(22, TOKEN_PROGRAM_ID, 82);
    let system_program = Account { address: SYSTEM_PROGRAM_ID, ..account(0, [0u8; 32], 0) };
    let token_program = Account { address: TOKEN_PROGRAM_ID, ..account(0, [0u8; 32], 0) };
    let (at, _) = find_associated_address(&wallet.address, &TOKEN_PROGRAM_ID, &mint.address).unwrap();
    let mut present = account(0, TOKEN_PROGRAM_ID, 165);
    present.address = at;
    let mut missing = account(0, SYSTEM_PROGRAM_ID, 0);
    missing.address = at;
    let signer = Signer { maker: [1u8; 32], seed: 2, bump: 3 };

    let once = AssociatedTokenAccount::init_if_needed(&present, &mint, &payer, &wallet, &system_program, &token_program);
    assert_eq!(once, vec![]);
    let twice = AssociatedTokenAccount::init_if_needed(&present, &mint, &payer, &wallet, &system_program, &token_program);
    assert_eq!(twice, vec![]);
    assert_eq!(
        AssociatedTokenAccount::init_if_needed_signed(
            &present,
            &mint,
            &payer,
            &wallet,
            &system_program,
            &token_program,
            Some(signer)
        ),
        vec![]
    );

    assert_eq!(
        AssociatedTokenAccount::init_if_needed(&missing, &mint, &payer, &wallet, &system_program, &token_program),
        vec![creation(&payer, &missing, &wallet, &mint, None)]
    );
    assert_eq!(
        AssociatedTokenAccount::init_if_needed_signed(
            &missing,
            &mint,
            &payer,
            &wallet,
            &system_program,
            &token_program,
            Some(signer)
        ),
        vec![creation(&payer, &missing, &wallet, &mint, Some(signer))]
    );
    assert_eq!(
        AssociatedTokenAccount::init(&present, &mint, &payer, &wallet, &system_program, &token_program),
        vec![creation(&payer, &present, &wallet, &mint, None)]
    );
    assert_eq!(
        AssociatedTokenAccount::init_signed(&present, &mint, &payer, &wallet, &system_program, &token_program, Some(signer)),
        vec![creation(&payer, &present, &wallet, &mint, Some(signer))]
    );
}

#[test]
fn associated_account_of_the_payer_is_not_taken_for_the_owner_s() {
    let wallet = account(20, SYSTEM_PROGRAM_ID, 0);
    let payer = account(21, SYSTEM_PROGRAM_ID, 0);
    let mint = account(22, TOKEN_PROGRAM_ID, 82);
    let system_program = Account { address: SYSTEM_PROGRAM_ID, ..account(0, [0u8; 32], 0) };
    let token_program = Account { address: TOKEN_PROGRAM_ID, ..account(0, [0u8; 32], 0) };
    let (at, _) = find_associated_address(&payer.address, &TOKEN_PROGRAM_ID, &mint.address).unwrap();
    let mut payers = account(0, TOKEN_PROGRAM_ID, 165);
    payers.address = at;
    assert_eq!(
        AssociatedTokenAccount::init_if_needed(&payers, &mint, &payer, &wallet, &system_program, &token_program),
        vec![creation(&payer, &payers, &wallet, &mint, None)]
    );
}

#[test]
fn plan_if_needed_follows_the_check() {
    let wallet = account(20, SYSTEM_PROGRAM_ID, 0);
    let payer = account(21, SYSTEM_PROGRAM_ID, 0);
    let mint = account(22, TOKEN_PROGRAM_ID, 82);
    let at = account(23, TOKEN_PROGRAM_ID, 165);
    let system_program = Account { address: SYSTEM_PROGRAM_ID, ..account(0, [0u8; 32], 0) };
    let token_program = Account { address: TOKEN_PROGRAM_ID, ..account(0, [0u8; 32], 0) };
    assert_eq!(
        AssociatedTokenAccount::plan_if_needed(Ok(()), &at, &mint, &payer, &wallet, &system_program, &token_program, None),
        vec![]
    );
    for e in [ProgramError::IllegalOwner, ProgramError::InvalidAccountData, ProgramError::InvalidArgument] {
        assert_eq!(
            AssociatedTokenAccount::plan_if_needed(
                Err(e),
                &at,
                &mint,
                &payer,
                &wallet,
                &system_program,
                &token_program,
                None
            ),
            vec![creation(&payer, &at, &wallet, &mint, None)]
        );
    }
}

#[test]
fn mint_is_created_then_initialized() {
    let target = account(30, SYSTEM_PROGRAM_ID, 0);
    let payer = account(31, SYSTEM_PROGRAM_ID, 0);
    let authority = [32u8; 32];
    let freeze = [33u8; 32];
    let plan = MintAccount::init(&target, &payer, &rent(), 6, &authority, Some(&freeze));
    assert_eq!(
        plan,
        Ok(vec![
            Action::CreateAccount {
                from: payer.address,
                to: target.address,
                lamports: 1_461_600,
                space: 82,
                owner: TOKEN_PROGRAM_ID,
                signer: None
            },
            Action::InitializeMint2 {
                program: TOKEN_PROGRAM_ID,
                mint: target.address,
                decimals: 6,
                mint_authority: authority,
                freeze_authority: Some(freeze)
            },
        ])
    );
    let plan = Mint2022Account::init(&target, &payer, &rent(), 9, &authority, None);
    assert_eq!(
        plan,
        Ok(vec![
            Action::CreateAccount {
                from: payer.address,
                to: target.address,
                lamports: 1_461_600,
                space: 82,
                owner: TOKEN_2022_PROGRAM_ID,
                signer: None
            },
            Action::InitializeMint2 {
                program: TOKEN_2022_PROGRAM_ID,
                mint: target.address,
                decimals: 9,
                mint_authority: authority,
                freeze_authority: None
            },
        ])
    );
}

#[test]
fn mint_is_created_only_where_missing() {
    let payer = account(31, SYSTEM_PROGRAM_ID, 0);
    let authority = [32u8; 32];
    let present = account(30, TOKEN_PROGRAM_ID, 82);
    assert_eq!(MintAccount::init_if_needed(&present, &payer, &rent(), 6, &authority, None), Ok(vec![]));
    assert_eq!(MintAccount::init_if_needed(&present, &payer, &rent(), 6, &authority, None), Ok(vec![]));
    let present = account(30, TOKEN_2022_PROGRAM_ID, 82);
    assert_eq!(Mint2022Account::init_if_needed(&present, &payer, &rent(), 6, &authority, None), Ok(vec![]));
    let missing = account(30, SYSTEM_PROGRAM_ID, 0);
    assert_eq!(
        MintAccount::init_if_needed(&missing, &payer, &rent(), 6, &authority, None),
        MintAccount::init(&missing, &payer, &rent(), 6, &authority, None)
    );
    assert_eq!(MintAccount::init_if_needed(&missing, &payer, &rent(), 6, &authority, None).unwrap().len(), 2);
    let wrong_kind = account(30, TOKEN_PROGRAM_ID, 165);
    assert_eq!(
        MintAccount::init_if_needed(&wrong_kind, &payer, &rent(), 6, &authority, None),
        MintAccount::init(&wrong_kind, &payer, &rent(), 6, &authority, None)
    );
    assert_eq!(
        Mint2022Account::init_if_needed(&missing, &payer, &rent(), 6, &authority, None),
        Mint2022Account::init(&missing, &payer, &rent(), 6, &authority, None)
    );
}

#[test]
fn creation_needs_the_rent_account() {
    let target = account(30, SYSTEM_PROGRAM_ID, 0);
    let payer = account(31, SYSTEM_PROGRAM_ID, 0);
    let mint = account(34, TOKEN_PROGRAM_ID, 82);
    let not_rent = account(35, SYSTEM_PROGRAM_ID, 8);
    assert_eq!(
        MintAccount::init(&target, &payer, &not_rent, 6, &[1u8; 32], None),
        Err(ProgramError::InvalidArgument)
    );
    assert_eq!(
        TokenAccount::init(&target, &mint, &payer, &not_rent, &[1u8; 32]),
        Err(ProgramError::InvalidArgument)
    );
    assert_eq!(
        ProgramAccount::init(&payer, &target, &not_rent, None, 113),
        Err(ProgramError::InvalidArgument)
    );
    assert_eq!(
        MintAccount::init_if_needed(&target, &payer, &not_rent, 6, &[1u8; 32], None),
        Err(ProgramError::InvalidArgument)
    );
    assert_eq!(
        MintAccount::init_if_needed(&mint, &payer, &not_rent, 6, &[1u8; 32], None),
        Ok(vec![])
    );
}

#[test]
fn holding_is_created_then_initialized() {
    let target = account(30, SYSTEM_PROGRAM_ID, 0);
    let payer = account(31, SYSTEM_PROGRAM_ID, 0);
    let mint = account(34, TOKEN_PROGRAM_ID, 82);
    let owner = [36u8; 32];
    assert_eq!(
        TokenAccount::init(&target, &mint, &payer, &rent(), &owner),
        Ok(vec![
            Action::CreateAccount {
                from: payer.address,
                to: target.address,
                lamports: 2_039_280,
                space: 165,
                owner: TOKEN_PROGRAM_ID,
                signer: None
            },
            Action::InitializeAccount3 { program: TOKEN_PROGRAM_ID, account: target.address, mint: mint.address, owner },
        ])
    );
    assert_eq!(
        TokenAccount2022Account::init(&target, &mint, &payer, &rent(), &owner),
        Ok(vec![
            Action::CreateAccount {
                from: payer.address,
                to: target.address,
                lamports: 2_039_280,
                space: 165,
                owner: TOKEN_2022_PROGRAM_ID,
                signer: None
            },
            Action::InitializeAccount3 {
                program: TOKEN_2022_PROGRAM_ID,
                account: target.address,
                mint: mint.address,
                owner
            },
        ])
    );
}

#[test]
fn holding_is_created_only_where_missing() {
    let payer = account(31, SYSTEM_PROGRAM_ID, 0);
    let mint = account(34, TOKEN_PROGRAM_ID, 82);
    let owner = [36u8; 32];
    let present = account(30, TOKEN_PROGRAM_ID, 165);
    assert_eq!(TokenAccount::init_if_needed(&present, &mint, &payer, &rent(), &owner), Ok(vec![]));
    assert_eq!(TokenAccount::init_if_needed(&present, &mint, &payer, &rent(), &owner), Ok(vec![]));
    let present = account(30, TOKEN_2022_PROGRAM_ID, 165);
    assert_eq!(TokenAccount2022Account::init_if_needed(&present, &mint, &payer, &rent(), &owner), Ok(vec![]));
    let missing = account(30, SYSTEM_PROGRAM_ID, 0);
    assert_eq!(
        TokenAccount::init_if_needed(&missing, &mint, &payer, &rent(), &owner),
        TokenAccount::init(&missing, &mint, &payer, &rent(), &owner)
    );
    assert_eq!(
        TokenAccount2022Account::init_if_needed(&missing, &mint, &payer, &rent(), &owner),
        TokenAccount2022Account::init(&missing, &mint, &payer, &rent(), &owner)
    );
    assert_eq!(TokenAccount::init_if_needed(&missing, &mint, &payer, &rent(), &owner).unwrap().len(), 2);
}

#[test]
fn program_account_is_created_with_its_signer() {
    let target = account(30, SYSTEM_PROGRAM_ID, 0);
    let payer = account(31, SYSTEM_PROGRAM_ID, 0);
    let signer = Signer { maker: payer.address, seed: 5, bump: 251 };
    assert_eq!(
        ProgramAccount::init(&payer, &target, &rent(), Some(signer), 113),
        Ok(vec![Action::CreateAccount {
            from: payer.address,
            to: target.address,
            lamports: 1_677_360,
            space: 113,
            owner: escrow::ID,
            signer: Some(signer)
        }])
    );
    assert_eq!(
        ProgramAccount::init(&payer, &target, &rent(), None, 10 * 1024 * 1024 + 1),
        Err(ProgramError::InvalidArgument)
    );
}

#[test]
fn closing_marks_before_it_drains() {
    let target = account(40, escrow::ID, 113);
    let destination = account(41, SYSTEM_PROGRAM_ID, 0);
    assert_eq!(
        ProgramAccount::close(&target, &destination),
        Ok(vec![
            Action::MarkClosed { account: target.address },
            Action::MoveLamports { from: target.address, to: destination.address },
            Action::Resize { account: target.address, len: 1 },
            Action::Release { account: target.address },
        ])
    );
    assert_eq!(ProgramAccount::close(&account(40, escrow::ID, 1), &destination).unwrap().len(), 4);
    assert_eq!(
        ProgramAccount::close(&account(40, escrow::ID, 0), &destination),
        Err(ProgramError::InvalidAccountData)
    );
}

#[test]
fn token_amount_is_read_from_the_record() {
    let mut holding = account(50, TOKEN_PROGRAM_ID, 165);
    assert_eq!(token_amount(&holding), Ok(0));
    holding.data[64..72].copy_from_slice(&1000u64.to_le_bytes());
    assert_eq!(token_amount(&holding), Ok(1000));
    holding.data[64..72].copy_from_slice(&u64::MAX.to_le_bytes());
    assert_eq!(token_amount(&holding), Ok(u64::MAX));
    holding.data[63] = 9;
    holding.data[72] = 9;
    holding.data[64..72].copy_from_slice(&[1, 2, 0, 0, 0, 0, 0, 0]);
    assert_eq!(token_amount(&holding), Ok(513));
    holding.owner = TOKEN_2022_PROGRAM_ID;
    assert_eq!(token_amount(&holding), Err(ProgramError::InvalidAccountData));
    assert_eq!(token_amount(&account(50, TOKEN_PROGRAM_ID, 164)), Err(ProgramError::InvalidAccountData));
    assert_eq!(token_amount(&account(50, TOKEN_PROGRAM_ID, 0)), Err(ProgramError::InvalidAccountData));
}

#[test]
fn account_answers_what_it_holds() {
    let mut a = account(60, TOKEN_PROGRAM_ID, 3);
    assert_eq!(a.address(), &[60u8; 32]);
    assert_eq!(a.data_len(), 3);
    assert!(!a.is_data_empty());
    assert!(a.owned_by(&TOKEN_PROGRAM_ID));
    assert!(!a.owned_by(&TOKEN_2022_PROGRAM_ID));
    assert_eq!(a.lamports(), 1_000_000);
    assert!(!a.is_signer());
    a.data.clear();
    a.is_signer = true;
    assert!(a.is_data_empty());
    assert!(a.is_signer());
}

#[test]
fn credit_adds_or_overflows() {
    assert_eq!(credit(0, 0), Ok(0));
    assert_eq!(credit(100, 1_677_360), Ok(1_677_460));
    assert_eq!(credit(u64::MAX - 5, 5), Ok(u64::MAX));
    assert_eq!(credit(u64::MAX - 5, 6), Err(ProgramError::ArithmeticOverflow));
    assert_eq!(credit(u64::MAX, u64::MAX), Err(ProgramError::ArithmeticOverflow));
}

#[test]
fn extended_tags_are_reachable_from_the_helpers() {
    assert_eq!(escrow::helpers::TOKEN2022_MINT_DISCRIMINATOR, 1);
    assert_eq!(escrow::helpers::TOKEN_2022_TOKEN_ACCOUNT_DISCRIMINATOR, 2);
    assert_eq!(escrow::helpers::TOKEN_2022_PROGRAM_ID, TOKEN_2022_PROGRAM_ID);
    assert_eq!(escrow::programs::TOKEN_2022_ACCOUNT_DISCRIMINATOR_OFFSET, 167);
}
