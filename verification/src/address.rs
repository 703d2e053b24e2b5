//! Account addresses and the addresses derived from seeds.

use vstd::prelude::*;
use crate::error::ProgramError;

verus! {

/// The address of an account: 32 bytes.
pub type Address = [u8; 32];

/// The views of the seeds of a derivation, in order.
pub open spec fn seeds_view(seeds: Seq<Vec<u8>>) -> Seq<Seq<u8>> {
    Seq::new(seeds.len(), |i: int| seeds[i]@)
}

/// The address that `seeds` derive under `program_id`, taken as they are, or
/// the error with which the derivation refuses them.
pub uninterp spec fn program_address(seeds: Seq<Seq<u8>>, program_id: Seq<u8>) -> Result<Seq<u8>, ProgramError>;

/// The canonical address that `seeds` derive under `program_id`, with the
/// bump seed that completes it; `None` where no bump seed does.
pub uninterp spec fn canonical_address(seeds: Seq<Seq<u8>>, program_id: Seq<u8>) -> Option<(Seq<u8>, u8)>;

/// Whether a found address is the one that the seeds, followed by the found
/// bump seed as a seed of one byte, derive when taken as they are.
pub open spec fn bump_completes(seeds: Seq<Seq<u8>>, program_id: Seq<u8>, found: Option<(Seq<u8>, u8)>) -> bool {
    found matches Some((address, bump)) ==> program_address(seeds.push(seq![bump]), program_id) == Ok::<
        Seq<u8>,
        ProgramError,
    >(address)
}

/// The view of a derived address and its bump seed.
pub open spec fn derived_view(r: Option<(Address, u8)>) -> Option<(Seq<u8>, u8)> {
    match r {
        Some((address, bump)) => Some((address@, bump)),
        None => None,
    }
}

/// The view of the outcome of a derivation without bump seed.
pub open spec fn created_view(r: Result<Address, ProgramError>) -> Result<Seq<u8>, ProgramError> {
    match r {
        Ok(address) => Ok(address@),
        Err(e) => Err(e),
    }
}

/// Calls `solana_address::Address::create_program_address`. The result is a
/// function of the seeds and the program id alone, named `program_address`;
/// the three errors of the outside crate are carried over one for one.
#[verifier::external_body]
pub(crate) fn create_program_address(seeds: &Vec<Vec<u8>>, program_id: &Address) -> (r: Result<Address, ProgramError>)
    ensures
        created_view(r) == program_address(seeds_view(seeds@), program_id@),
{
    let slices: Vec<&[u8]> = seeds.iter().map(|s| s.as_slice()).collect();
    let id = solana_address::Address::new_from_array(*program_id);
    match solana_address::Address::create_program_address(&slices, &id) {
        Ok(address) => Ok(address.to_bytes()),
        Err(solana_address::error::AddressError::MaxSeedLengthExceeded) => Err(ProgramError::MaxSeedLengthExceeded),
        Err(solana_address::error::AddressError::InvalidSeeds) => Err(ProgramError::InvalidSeeds),
        Err(solana_address::error::AddressError::IllegalOwner) => Err(ProgramError::IllegalOwner),
    }
}

/// Calls `solana_address::Address::try_find_program_address`. The result is a
/// function of the seeds and the program id alone, named `canonical_address`.
/// Where an address is found, it is the one that the same seeds, followed by
/// the bump seed as a seed of one byte, derive taken as they are.
#[verifier::external_body]
pub(crate) fn try_find_program_address(seeds: &Vec<Vec<u8>>, program_id: &Address) -> (r: Option<(Address, u8)>)
    ensures
        derived_view(r) == canonical_address(seeds_view(seeds@), program_id@),
        bump_completes(seeds_view(seeds@), program_id@, derived_view(r)),
{
    let slices: Vec<&[u8]> = seeds.iter().map(|s| s.as_slice()).collect();
    let id = solana_address::Address::new_from_array(*program_id);
    solana_address::Address::try_find_program_address(&slices, &id).map(|(address, bump)| (address.to_bytes(), bump))
}

/// Whether two addresses are the same 32 bytes.
pub fn same_address(a: &Address, b: &Address) -> (r: bool)
    ensures
        r == (a@ == b@),
{
    let mut i: usize = 0;
    while i < 32
        invariant
            i <= 32,
            forall|j: int| 0 <= j < i ==> a@[j] == b@[j],
        decreases 32 - i,
    {
        if a[i] != b[i] {
            return false;
        }
        i += 1;
    }
    assert(a@ =~= b@);
    true
}

} // verus!
