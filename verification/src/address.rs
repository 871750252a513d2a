//! Addresses of the ledger, and the authority address that a pool derives
//! for itself.

use vstd::prelude::*;
use solana_program::pubkey::Pubkey;
use solana_program::pubkey::PubkeyError;
use crate::error::CustomError;
use crate::error::ProgramError;

verus! {

/// A 32-byte address: of an account, a mint or a program.
#[derive(Clone, Copy, Debug, Eq, Hash)]
pub struct Address {
    pub bytes: [u8; 32],
}

impl View for Address {
    type V = Seq<u8>;

    open spec fn view(&self) -> Seq<u8> {
        self.bytes@
    }
}

impl PartialEq for Address {
    fn eq(&self, other: &Address) -> (same: bool) {
        let mut i: usize = 0;
        while i < 32
            invariant
                i <= 32,
                forall|j: int| 0 <= j < i ==> self.bytes@[j] == other.bytes@[j],
            decreases 32 - i,
        {
            if self.bytes[i] != other.bytes[i] {
                return false;
            }
            i = i + 1;
        }
        assert(self.bytes@ =~= other.bytes@);
        true
    }
}

impl vstd::std_specs::cmp::PartialEqSpecImpl for Address {
    open spec fn obeys_eq_spec() -> bool {
        true
    }

    open spec fn eq_spec(&self, other: &Address) -> bool {
        self@ == other@
    }
}

impl Default for Address {
    fn default() -> (a: Address)
        ensures
            a@ == Seq::new(32, |i: int| 0u8),
    {
        let a = Address { bytes: [0u8; 32] };
        assert(a@ =~= Seq::new(32, |i: int| 0u8));
        a
    }
}

/// The address made of the 32 bytes of `s` that start at `at`.
pub open spec fn address_at(s: Seq<u8>, at: int) -> Address {
    Address {
        bytes: [
            s[at], s[at + 1], s[at + 2], s[at + 3], s[at + 4], s[at + 5], s[at + 6], s[at + 7],
            s[at + 8], s[at + 9], s[at + 10], s[at + 11], s[at + 12], s[at + 13], s[at + 14],
            s[at + 15], s[at + 16], s[at + 17], s[at + 18], s[at + 19], s[at + 20], s[at + 21],
            s[at + 22], s[at + 23], s[at + 24], s[at + 25], s[at + 26], s[at + 27], s[at + 28],
            s[at + 29], s[at + 30], s[at + 31],
        ],
    }
}

/// Two addresses with the same bytes are the same address.
pub proof fn lemma_address_ext(a: Address, b: Address)
    requires
        a@ == b@,
    ensures
        a == b,
{
    assert(a.bytes =~= b.bytes);
}

/// `address_at` holds exactly the bytes it was cut from.
pub proof fn lemma_address_at(s: Seq<u8>, at: int)
    requires
        0 <= at,
        at + 32 <= s.len(),
    ensures
        address_at(s, at)@ == s.subrange(at, at + 32),
{
    assert(address_at(s, at)@ =~= s.subrange(at, at + 32));
}

/// An address cut from its own bytes, wherever they stand, is the address.
pub proof fn lemma_address_roundtrip(a: Address, s: Seq<u8>, at: int)
    requires
        0 <= at,
        at + 32 <= s.len(),
        s.subrange(at, at + 32) == a@,
    ensures
        address_at(s, at) == a,
{
    lemma_address_at(s, at);
    lemma_address_ext(address_at(s, at), a);
}

impl Address {
    /// The address with the given bytes.
    pub fn new_from_array(bytes: [u8; 32]) -> (a: Address)
        ensures
            a.bytes == bytes,
    {
        Address { bytes }
    }

    /// The address's bytes.
    pub fn to_bytes(&self) -> (bytes: [u8; 32])
        ensures
            bytes == self.bytes,
    {
        self.bytes
    }

    /// Reads the address at offset `at` of `src`.
    pub fn read_from(src: &[u8], at: usize) -> (a: Address)
        requires
            at + 32 <= src@.len(),
        ensures
            a == address_at(src@, at as int),
            a@ == src@.subrange(at as int, at + 32),
    {
        let len: usize = src.len();
        let mut bytes: [u8; 32] = [0u8; 32];
        let mut i: usize = 0;
        while i < 32
            invariant
                i <= 32,
                len == src@.len(),
                at + 32 <= len,
                forall|j: int| 0 <= j < i ==> bytes@[j] == src@[at + j],
            decreases 32 - i,
        {
            bytes[i] = src[at + i];
            i = i + 1;
        }
        let a = Address { bytes };
        proof {
            assert(a@ =~= src@.subrange(at as int, at + 32));
            lemma_address_roundtrip(a, src@, at as int);
        }
        a
    }

    /// Appends the address's 32 bytes to `out`.
    pub fn push_to(&self, out: &mut Vec<u8>)
        ensures
            final(out)@ == old(out)@ + self@,
    {
        let mut i: usize = 0;
        while i < 32
            invariant
                i <= 32,
                out@ == old(out)@ + self@.subrange(0, i as int),
            decreases 32 - i,
        {
            out.push(self.bytes[i]);
            assert(out@ =~= old(out)@ + self@.subrange(0, i + 1));
            i = i + 1;
        }
        assert(self@.subrange(0, 32) =~= self@);
    }
}

/// What deriving a program address from a pool's address and its one-byte
/// seed gives, for the program with the given address: the derived address,
/// or the reason why the seeds derive none.
pub uninterp spec fn derived_address(pool: Seq<u8>, bump_seed: u8, program_id: Seq<u8>) -> Result<
    Address,
    ProgramError,
>;

/// Calls `Pubkey::create_program_address` of `solana_program` with the two
/// seeds of a pool authority: the pool's 32-byte address, then the seed
/// byte. The derivation hashes the seeds with the program's address and
/// refuses a hash that is a point of the signature curve, so that nobody
/// holds a key for the result. It depends on its arguments alone, and
/// `derived_address` names what it returns. An error of the derivation
/// comes back as the host's error kind of the same name.
#[verifier::external_body]
pub(crate) fn create_program_address(pool: &Address, bump_seed: u8, program_id: &Address) -> (r: Result<
    Address,
    ProgramError,
>)
    ensures
        r == derived_address(pool@, bump_seed, program_id@),
{
    let program = Pubkey::new_from_array(program_id.bytes);
    match Pubkey::create_program_address(&[&pool.bytes, &[bump_seed]], &program) {
        Ok(key) => Ok(Address { bytes: key.to_bytes() }),
        Err(PubkeyError::MaxSeedLengthExceeded) => Err(ProgramError::MaxSeedLengthExceeded),
        Err(PubkeyError::InvalidSeeds) => Err(ProgramError::InvalidSeeds),
        Err(PubkeyError::IllegalOwner) => Err(ProgramError::IllegalOwner),
    }
}

/// What checking a candidate authority against a derivation's outcome gives.
pub open spec fn authority_check(candidate: Seq<u8>, derived: Result<Address, ProgramError>) -> Result<
    (),
    ProgramError,
> {
    match derived {
        Err(e) => Err(e),
        Ok(a) => if a@ == candidate {
            Ok(())
        } else {
            Err(ProgramError::Custom(CustomError::InvalidPoolAuthority))
        },
    }
}

/// Compares a candidate authority with the outcome of the derivation: the
/// derivation's own error comes first, then a mismatch is
/// `InvalidPoolAuthority`.
pub fn check_authority(candidate: &Address, derived: Result<Address, ProgramError>) -> (r: Result<
    (),
    ProgramError,
>)
    ensures
        r == authority_check(candidate@, derived),
{
    match derived {
        Err(e) => Err(e),
        Ok(a) => {
            if a == *candidate {
                Ok(())
            } else {
                Err(ProgramError::Custom(CustomError::InvalidPoolAuthority))
            }
        },
    }
}

/// Derives the pool's authority anew and accepts `candidate` only if it is
/// that address. Nothing is cached: every use of the authority goes through
/// here.
pub fn validate_authority(
    candidate: &Address,
    pool_address: &Address,
    bump_seed: u8,
    program_id: &Address,
) -> (r: Result<(), ProgramError>)
    ensures
        r == authority_check(candidate@, derived_address(pool_address@, bump_seed, program_id@)),
        r is Ok <==> (derived_address(pool_address@, bump_seed, program_id@) matches Ok(a)
            && a@ == candidate@),
{
    check_authority(candidate, create_program_address(pool_address, bump_seed, program_id))
}

} // verus!
