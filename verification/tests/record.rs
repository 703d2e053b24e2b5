use escrow::error::ProgramError;
use escrow::state::Escrow;

fn sample() -> Escrow {
    Escrow { seed: 1, maker: [7u8; 32], mint_a: [8u8; 32], mint_b: [9u8; 32], receive: 500, bump: 254 }
}

#[test]
fn record_has_fixed_layout() {
    let bytes = sample().to_bytes();
    assert_eq!(bytes.len(), 113);
    assert_eq!(&bytes[0..8], &[1, 0, 0, 0, 0, 0, 0, 0]);
    assert_eq!(&bytes[8..40], &[7u8; 32]);
    assert_eq!(&bytes[40..72], &[8u8; 32]);
    assert_eq!(&bytes[72..104], &[9u8; 32]);
    assert_eq!(&bytes[104..112], &[244, 1, 0, 0, 0, 0, 0, 0]);
    assert_eq!(bytes[112], 254);
}

#[test]
fn record_round_trips() {
    let stored = sample();
    assert_eq!(Escrow::load(&stored.to_bytes()), Ok(stored));
}

#[test]
fn record_of_wrong_size_is_invalid() {
    assert_eq!(Escrow::load(&[0u8; 112]), Err(ProgramError::InvalidAccountData));
    assert_eq!(Escrow::load(&[0u8; 114]), Err(ProgramError::InvalidAccountData));
    assert_eq!(Escrow::load(&[]), Err(ProgramError::InvalidAccountData));
}
