//! The balance that exempts an account from rent.

use vstd::prelude::*;
use vstd::bytes::{spec_u64_from_le_bytes, u64_from_le_bytes};
use vstd::slice::slice_subrange;
use crate::account::Account;
use crate::address::same_address;
use crate::error::ProgramError;
use crate::programs::RENT_ID;

verus! {

/// The bytes that the ledger charges for every account besides its data.
pub const ACCOUNT_STORAGE_OVERHEAD: u64 = 128;

/// The most data an account may hold.
pub const MAX_PERMITTED_DATA_LENGTH: u64 = 10485760;

/// The highest price per byte for which a minimum balance is computed.
pub const MAX_LAMPORTS_PER_BYTE: u64 = 1759197129867;

/// The least balance that exempts an account of `data_len` bytes from rent
/// at a price of `lamports_per_byte`: the price of its data and of the
/// overhead. There is none where the data is longer than an account may
/// hold, or the price higher than the highest provided for.
pub open spec fn minimum_balance(lamports_per_byte: u64, data_len: nat) -> Option<u64> {
    if data_len > MAX_PERMITTED_DATA_LENGTH || lamports_per_byte > MAX_LAMPORTS_PER_BYTE {
        None
    } else {
        Some(((ACCOUNT_STORAGE_OVERHEAD + data_len) * lamports_per_byte) as u64)
    }
}

/// The highest minimum balance fits in 64 bits.
pub proof fn lemma_minimum_balance_fits(lamports_per_byte: u64, data_len: nat)
    requires
        data_len <= MAX_PERMITTED_DATA_LENGTH,
        lamports_per_byte <= MAX_LAMPORTS_PER_BYTE,
    ensures
        (ACCOUNT_STORAGE_OVERHEAD + data_len) * lamports_per_byte <= u64::MAX,
{
    assert((ACCOUNT_STORAGE_OVERHEAD + data_len) * lamports_per_byte <= (128 + 10485760) * 1759197129867)
        by (nonlinear_arith)
        requires
            0 <= ACCOUNT_STORAGE_OVERHEAD + data_len <= 128 + 10485760,
            0 <= lamports_per_byte <= 1759197129867,
    ;
}

/// Calls `pinocchio::sysvars::rent::Rent::try_minimum_balance`, on the rent
/// parameters that `Rent::from_bytes` reads from the eight bytes of
/// `lamports_per_byte`. The outside function refuses data longer than an
/// account may hold and a price above its limit, and otherwise multiplies the
/// price by the length of the data plus the overhead; its refusal comes back
/// as `None`.
#[verifier::external_body]
pub(crate) fn try_minimum_balance(lamports_per_byte: u64, data_len: usize) -> (r: Option<u64>)
    ensures
        r == minimum_balance(lamports_per_byte, data_len as nat),
{
    let rent = pinocchio::sysvars::rent::Rent::from_bytes(&lamports_per_byte.to_ne_bytes()).ok()?;
    rent.try_minimum_balance(data_len).ok()
}

/// What `rent_exempt_minimum` answers. The rent account must be the one in
/// which the ledger publishes its rent parameters and hold at least the price
/// per byte, in 8 bytes, low byte first; any failure is an invalid argument.
pub open spec fn rent_minimum(rent: &Account, space: nat) -> Result<u64, ProgramError> {
    if rent.address@ != RENT_ID@ || rent.data@.len() < 8 {
        Err(ProgramError::InvalidArgument)
    } else {
        match minimum_balance(spec_u64_from_le_bytes(rent.data@.subrange(0, 8)), space) {
            Some(lamports) => Ok(lamports),
            None => Err(ProgramError::InvalidArgument),
        }
    }
}

/// The least balance that exempts an account of `space` bytes from rent,
/// under the rent parameters stored in `rent`.
pub fn rent_exempt_minimum(rent: &Account, space: usize) -> (r: Result<u64, ProgramError>)
    ensures
        r == rent_minimum(rent, space as nat),
        r matches Ok(lamports) ==> lamports == (ACCOUNT_STORAGE_OVERHEAD + space) * spec_u64_from_le_bytes(
            rent.data@.subrange(0, 8),
        ),
{
    if !same_address(rent.address(), &RENT_ID) {
        return Err(ProgramError::InvalidArgument);
    }
    if rent.data.len() < 8 {
        return Err(ProgramError::InvalidArgument);
    }
    let lamports_per_byte = u64_from_le_bytes(slice_subrange(rent.data.as_slice(), 0, 8));
    proof {
        if minimum_balance(lamports_per_byte, space as nat) is Some {
            lemma_minimum_balance_fits(lamports_per_byte, space as nat);
        }
    }
    match try_minimum_balance(lamports_per_byte, space) {
        Some(lamports) => Ok(lamports),
        None => Err(ProgramError::InvalidArgument),
    }
}

} // verus!
