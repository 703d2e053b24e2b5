//! The record that describes an open escrow.

use vstd::prelude::*;
use vstd::bytes::{
    lemma_auto_spec_u64_to_from_le_bytes, spec_u64_from_le_bytes, spec_u64_to_le_bytes,
    u64_from_le_bytes, u64_to_le_bytes,
};
use vstd::slice::slice_subrange;
use crate::address::Address;
use crate::error::ProgramError;

verus! {

/// An open swap: who made it, which two tokens it exchanges, and how much of
/// the second the maker wants.
#[derive(Clone, Copy, Debug, PartialEq, Eq)]
pub struct Escrow {
    /// Tells apart the escrows of one maker.
    pub seed: u64,
    /// The maker's address.
    pub maker: Address,
    /// The mint of the token that the maker deposits.
    pub mint_a: Address,
    /// The mint of the token that the maker wants.
    pub mint_b: Address,
    /// How much of token B the maker wants.
    pub receive: u64,
    /// The bump seed that completes the derivation of the escrow's address.
    pub bump: u8,
}

/// The 32 bytes of `data` that start at `offset`, as an address.
pub fn read_address(data: &[u8], offset: usize) -> (r: Address)
    requires
        offset + 32 <= data@.len(),
    ensures
        r@ == data@.subrange(offset as int, offset + 32),
{
    let mut r: Address = [0u8; 32];
    let len: usize = data.len();
    let mut i: usize = 0;
    while i < 32
        invariant
            i <= 32,
            offset + 32 <= len,
            len == data@.len(),
            forall|j: int| 0 <= j < i ==> r@[j] == data@[offset + j],
        decreases 32 - i,
    {
        r[i] = data[offset + i];
        i += 1;
    }
    assert(r@ =~= data@.subrange(offset as int, offset + 32));
    r
}

/// Appends the 32 bytes of `address` to `out`.
pub fn write_address(out: &mut Vec<u8>, address: &Address)
    ensures
        final(out)@ == old(out)@ + address@,
{
    let ghost before = out@;
    let mut i: usize = 0;
    while i < 32
        invariant
            i <= 32,
            out@ == before + address@.subrange(0, i as int),
        decreases 32 - i,
    {
        out.push(address[i]);
        assert(out@ =~= before + address@.subrange(0, i + 1));
        i += 1;
    }
    assert(address@.subrange(0, 32) =~= address@);
}

impl Escrow {
    /// The size of a stored record.
    pub const LEN: usize = 113;

    /// The bytes under which the record is stored: the seed in 8 bytes, low
    /// byte first, the three addresses, the amount wanted in 8 bytes, low byte
    /// first, and the bump seed.
    pub open spec fn bytes(self) -> Seq<u8> {
        spec_u64_to_le_bytes(self.seed) + self.maker@ + self.mint_a@ + self.mint_b@
            + spec_u64_to_le_bytes(self.receive) + seq![self.bump]
    }

    /// The record stored under `data`.
    pub open spec fn stored_in(data: Seq<u8>) -> Escrow {
        choose|escrow: Escrow| escrow.bytes() == data
    }

    /// What `load` answers for `data`: data of any size but that of a record
    /// is invalid.
    pub open spec fn loaded(data: Seq<u8>) -> Result<Escrow, ProgramError> {
        if data.len() != Escrow::LEN {
            Err(ProgramError::InvalidAccountData)
        } else {
            Ok(Escrow::stored_in(data))
        }
    }

    /// Reads a record. The data must have the size of a record exactly; the
    /// record returned is the one stored under these bytes.
    pub fn load(data: &[u8]) -> (r: Result<Escrow, ProgramError>)
        ensures
            r == Escrow::loaded(data@),
            r matches Ok(escrow) ==> escrow.bytes() == data@,
    {
        if data.len() != Escrow::LEN {
            return Err(ProgramError::InvalidAccountData);
        }
        let seed = u64_from_le_bytes(slice_subrange(data, 0, 8));
        let maker = read_address(data, 8);
        let mint_a = read_address(data, 40);
        let mint_b = read_address(data, 72);
        let receive = u64_from_le_bytes(slice_subrange(data, 104, 112));
        let bump = data[112];
        let escrow = Escrow { seed, maker, mint_a, mint_b, receive, bump };
        proof {
            lemma_auto_spec_u64_to_from_le_bytes();
            assert(spec_u64_to_le_bytes(seed) == data@.subrange(0, 8));
            assert(spec_u64_to_le_bytes(receive) == data@.subrange(104, 112));
            assert(escrow.bytes() =~= data@);
            Escrow::lemma_round_trip(escrow, Escrow::stored_in(data@));
        }
        Ok(escrow)
    }

    /// The bytes under which the record is stored.
    pub fn to_bytes(&self) -> (r: Vec<u8>)
        ensures
            r@ == self.bytes(),
            r@.len() == Escrow::LEN,
    {
        let mut out = u64_to_le_bytes(self.seed);
        write_address(&mut out, &self.maker);
        write_address(&mut out, &self.mint_a);
        write_address(&mut out, &self.mint_b);
        let mut receive = u64_to_le_bytes(self.receive);
        out.append(&mut receive);
        out.push(self.bump);
        assert(out@ =~= self.bytes());
        out
    }

    /// Replaces every field of the record.
    pub fn set_inner(&mut self, seed: u64, maker: Address, mint_a: Address, mint_b: Address, receive: u64, bump: u8)
        ensures
            *final(self) == (Escrow { seed, maker, mint_a, mint_b, receive, bump }),
    {
        self.seed = seed;
        self.maker = maker;
        self.mint_a = mint_a;
        self.mint_b = mint_b;
        self.receive = receive;
        self.bump = bump;
    }

    /// Reading the bytes under which a record is stored gives that record.
    pub proof fn lemma_load_stored(stored: Escrow)
        ensures
            Escrow::loaded(stored.bytes()) == Ok::<Escrow, ProgramError>(stored),
    {
        Escrow::lemma_round_trip(stored, stored);
        Escrow::lemma_round_trip(stored, Escrow::stored_in(stored.bytes()));
    }

    /// A record stored and read back is the record that was stored: every
    /// field comes back as it went in.
    pub proof fn lemma_round_trip(stored: Escrow, read: Escrow)
        requires
            read.bytes() == stored.bytes(),
        ensures
            read == stored,
            stored.bytes().len() == Escrow::LEN,
    {
        lemma_auto_spec_u64_to_from_le_bytes();
        let b = stored.bytes();
        let c = read.bytes();
        assert(b.subrange(0, 8) =~= spec_u64_to_le_bytes(stored.seed));
        assert(c.subrange(0, 8) =~= spec_u64_to_le_bytes(read.seed));
        assert(b.subrange(8, 40) =~= stored.maker@);
        assert(c.subrange(8, 40) =~= read.maker@);
        assert(b.subrange(40, 72) =~= stored.mint_a@);
        assert(c.subrange(40, 72) =~= read.mint_a@);
        assert(b.subrange(72, 104) =~= stored.mint_b@);
        assert(c.subrange(72, 104) =~= read.mint_b@);
        assert(b.subrange(104, 112) =~= spec_u64_to_le_bytes(stored.receive));
        assert(c.subrange(104, 112) =~= spec_u64_to_le_bytes(read.receive));
        assert(b[112] == stored.bump);
        assert(c[112] == read.bump);
        assert(read.maker =~= stored.maker);
        assert(read.mint_a =~= stored.mint_a);
        assert(read.mint_b =~= stored.mint_b);
    }
}

} // verus!
