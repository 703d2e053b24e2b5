//! The addresses of the ledger's services and the layouts of their accounts.

use vstd::prelude::*;
use crate::address::Address;

verus! {

/// The ledger's system program, which owns every account that no other
/// program has claimed.
pub const SYSTEM_PROGRAM_ID: Address = [
    0, 0, 0, 0, 0, 0, 0, 0, 0, 0, 0, 0, 0, 0, 0, 0,
    0, 0, 0, 0, 0, 0, 0, 0, 0, 0, 0, 0, 0, 0, 0, 0,
];

/// The classic token program.
pub const TOKEN_PROGRAM_ID: Address = [
    6, 221, 246, 225, 215, 101, 161, 147, 217, 203, 225, 70, 206, 235, 121, 172,
    28, 180, 133, 237, 95, 91, 55, 145, 58, 140, 245, 133, 126, 255, 0, 169,
];

/// The extended token program.
pub const TOKEN_2022_PROGRAM_ID: Address = [
    0x06, 0xdd, 0xf6, 0xe1, 0xee, 0x75, 0x8f, 0xde, 0x18, 0x42, 0x5d, 0xbc, 0xe4, 0x6c, 0xcd, 0xda,
    0xb6, 0x1a, 0xfc, 0x4d, 0x83, 0xb9, 0x0d, 0x27, 0xfe, 0xbd, 0xf9, 0x28, 0xd8, 0xa1, 0x8b, 0xfc,
];

/// The program under which associated token addresses are derived.
pub const ASSOCIATED_TOKEN_PROGRAM_ID: Address = [
    140, 151, 37, 143, 78, 36, 137, 241, 187, 61, 16, 41, 20, 142, 13, 131,
    11, 90, 19, 153, 218, 255, 16, 132, 4, 142, 123, 216, 219, 233, 248, 89,
];

/// The account in which the ledger publishes its rent parameters.
pub const RENT_ID: Address = [
    6, 167, 213, 23, 25, 44, 92, 81, 33, 140, 201, 76, 61, 74, 241, 127,
    88, 218, 238, 8, 155, 161, 253, 68, 227, 219, 217, 138, 0, 0, 0, 0,
];

/// The size of a mint record of the classic token program.
pub const MINT_LEN: usize = 82;

/// The size of a holding record of the classic token program.
pub const TOKEN_ACCOUNT_LEN: usize = 165;

/// Where a record of the extended token program keeps its type tag.
pub const TOKEN_2022_ACCOUNT_DISCRIMINATOR_OFFSET: usize = 167;

/// The type tag of a mint of the extended token program.
pub const TOKEN2022_MINT_DISCRIMINATOR: u8 = 0x01;

/// The type tag of a holding account of the extended token program.
pub const TOKEN_2022_TOKEN_ACCOUNT_DISCRIMINATOR: u8 = 0x02;

} // verus!
