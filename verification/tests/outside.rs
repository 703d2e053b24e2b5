use escrow::account::Account;
use escrow::action::{associated_seeds_of, escrow_seeds_of, Signer};
use escrow::error::ProgramError;
use escrow::helpers::find_associated_address;
use escrow::instructions::make::find_escrow_address;
use escrow::programs::{
    ASSOCIATED_TOKEN_PROGRAM_ID, MINT_LEN, RENT_ID, SYSTEM_PROGRAM_ID, TOKEN_ACCOUNT_LEN,
    TOKEN_PROGRAM_ID,
};
use escrow::rent::rent_exempt_minimum;
use solana_address::Address;

fn rent_account(lamports_per_byte: u64) -> Account {
    Account {
        address: RENT_ID,
        owner: [0u8; 32],
        lamports: 1,
        data: lamports_per_byte.to_le_bytes().to_vec(),
        is_signer: false,
    }
}

#[test]
fn program_ids_are_those_of_the_services() {
    assert_eq!(TOKEN_PROGRAM_ID, pinocchio_token::ID.to_bytes());
    assert_eq!(SYSTEM_PROGRAM_ID, pinocchio_system::ID.to_bytes());
    assert_eq!(ASSOCIATED_TOKEN_PROGRAM_ID, pinocchio_associated_token_account::ID.to_bytes());
    assert_eq!(RENT_ID, pinocchio::sysvars::rent::RENT_ID.to_bytes());
    assert_eq!(
        escrow::programs::TOKEN_2022_PROGRAM_ID,
        Address::from_str_const("TokenzQdBNbLqP5VEhdkAS6EPFLC1PHnBqCXEpPxuEb").to_bytes()
    );
    assert_eq!(
        escrow::ID,
        Address::from_str_const("22222222222222222222222222222222222222222222").to_bytes()
    );
}

#[test]
fn record_sizes_are_those_of_the_token_service() {
    assert_eq!(MINT_LEN, pinocchio_token::state::Mint::LEN);
    assert_eq!(TOKEN_ACCOUNT_LEN, pinocchio_token::state::Account::LEN);
    assert_eq!(MINT_LEN, 82);
    assert_eq!(TOKEN_ACCOUNT_LEN, 165);
}

#[test]
fn rent_limits_are_those_of_the_ledger() {
    assert_eq!(escrow::rent::ACCOUNT_STORAGE_OVERHEAD, pinocchio::sysvars::rent::ACCOUNT_STORAGE_OVERHEAD);
    assert_eq!(escrow::rent::MAX_PERMITTED_DATA_LENGTH, 10 * 1024 * 1024);
}

#[test]
fn minimum_balance_is_price_times_size_with_overhead() {
    assert_eq!(rent_exempt_minimum(&rent_account(6960), 82), Ok(1_461_600));
    assert_eq!(rent_exempt_minimum(&rent_account(6960), 165), Ok(2_039_280));
    assert_eq!(rent_exempt_minimum(&rent_account(6960), 113), Ok(1_677_360));
    assert_eq!(rent_exempt_minimum(&rent_account(6960), 0), Ok(890_880));
    assert_eq!(rent_exempt_minimum(&rent_account(0), 165), Ok(0));
    assert_eq!(rent_exempt_minimum(&rent_account(1), 7), Ok(135));
}

#[test]
fn minimum_balance_at_the_limits() {
    let longest = 10 * 1024 * 1024;
    let dearest = 1_759_197_129_867u64;
    assert_eq!(
        rent_exempt_minimum(&rent_account(dearest), longest),
        Ok(18_446_744_073_706_816_896)
    );
    assert_eq!(rent_exempt_minimum(&rent_account(dearest), longest + 1), Err(ProgramError::InvalidArgument));
    assert_eq!(rent_exempt_minimum(&rent_account(dearest + 1), longest), Err(ProgramError::InvalidArgument));
    assert_eq!(rent_exempt_minimum(&rent_account(u64::MAX), 0), Err(ProgramError::InvalidArgument));
}

#[test]
fn minimum_balance_is_what_the_outside_crate_computes() {
    let rent = pinocchio::sysvars::rent::Rent::from_bytes(&6960u64.to_le_bytes()).unwrap();
    for space in [0usize, 1, 82, 113, 165, 4096] {
        assert_eq!(rent_exempt_minimum(&rent_account(6960), space).ok(), rent.try_minimum_balance(space).ok());
    }
}

#[test]
fn rent_is_read_from_the_rent_account_only() {
    let mut other = rent_account(6960);
    other.address = [1u8; 32];
    assert_eq!(rent_exempt_minimum(&other, 82), Err(ProgramError::InvalidArgument));
    let mut short = rent_account(6960);
    short.data.truncate(7);
    assert_eq!(rent_exempt_minimum(&short, 82), Err(ProgramError::InvalidArgument));
    let mut long = rent_account(6960);
    long.data.extend_from_slice(&[9, 9, 9]);
    assert_eq!(rent_exempt_minimum(&long, 82), Ok(1_461_600));
}

#[test]
fn seeds_are_built_in_order() {
    let maker = [3u8; 32];
    let seeds = escrow_seeds_of(&maker, 0x0102030405060708);
    assert_eq!(seeds, vec![b"escrow".to_vec(), maker.to_vec(), vec![8, 7, 6, 5, 4, 3, 2, 1]]);
    let seeds = associated_seeds_of(&[1u8; 32], &[2u8; 32], &[3u8; 32]);
    assert_eq!(seeds, vec![vec![1u8; 32], vec![2u8; 32], vec![3u8; 32]]);
    let signer = Signer { maker, seed: 1, bump: 250 };
    assert_eq!(
        signer.seeds(),
        vec![b"escrow".to_vec(), maker.to_vec(), vec![1, 0, 0, 0, 0, 0, 0, 0], vec![250]]
    );
}

#[test]
fn escrow_address_is_the_canonical_derivation() {
    let maker = [3u8; 32];
    let program = Address::new_from_array(escrow::ID);
    for seed in [0u64, 1, 77, u64::MAX] {
        let (address, bump) = Address::find_program_address(&[b"escrow", &maker, &seed.to_le_bytes()], &program);
        assert_eq!(find_escrow_address(&maker, seed), Some((address.to_bytes(), bump)));
        assert_ne!(address.to_bytes(), maker);
        assert_ne!(address.to_bytes(), escrow::ID);
    }
}

#[test]
fn escrow_addresses_differ_by_maker_and_seed() {
    let a = find_escrow_address(&[3u8; 32], 1).unwrap().0;
    let b = find_escrow_address(&[3u8; 32], 2).unwrap().0;
    let c = find_escrow_address(&[4u8; 32], 1).unwrap().0;
    assert_ne!(a, b);
    assert_ne!(a, c);
    assert_ne!(b, c);
}

#[test]
fn associated_address_is_the_canonical_derivation() {
    let wallet = [5u8; 32];
    let mint = [6u8; 32];
    let program = Address::new_from_array(ASSOCIATED_TOKEN_PROGRAM_ID);
    let (address, bump) = Address::find_program_address(&[&wallet, &TOKEN_PROGRAM_ID, &mint], &program);
    assert_eq!(find_associated_address(&wallet, &TOKEN_PROGRAM_ID, &mint), Some((address.to_bytes(), bump)));
    assert_ne!(
        find_associated_address(&wallet, &TOKEN_PROGRAM_ID, &mint),
        find_associated_address(&mint, &TOKEN_PROGRAM_ID, &wallet)
    );
}

#[test]
fn found_bump_completes_the_derivation() {
    let maker = [9u8; 32];
    for seed in [0u64, 5, 1 << 40] {
        let (address, bump) = find_escrow_address(&maker, seed).unwrap();
        let signer = Signer { maker, seed, bump };
        assert_eq!(signer.address(), Ok(address));
    }
}

#[test]
fn signer_address_is_the_plain_derivation() {
    let maker = [9u8; 32];
    let program = Address::new_from_array(escrow::ID);
    let mut seen_valid = false;
    let mut seen_invalid = false;
    for bump in 0u8..=255 {
        let signer = Signer { maker, seed: 11, bump };
        let outside = Address::create_program_address(&[b"escrow", &maker, &11u64.to_le_bytes(), &[bump]], &program);
        match outside {
            Ok(address) => {
                seen_valid = true;
                assert_eq!(signer.address(), Ok(address.to_bytes()));
            }
            Err(_) => {
                seen_invalid = true;
                assert_eq!(signer.address(), Err(ProgramError::InvalidSeeds));
            }
        }
    }
    assert!(seen_valid);
    assert!(seen_invalid);
}
