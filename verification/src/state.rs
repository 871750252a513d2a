//! The two persistent records, their byte layout, and the reward accrual
//! that a stake record goes through.

use vstd::prelude::*;
use crate::address::Address;
use crate::address::address_at;
use crate::address::lemma_address_at;
use crate::address::lemma_address_roundtrip;
use crate::codec::i64_le_bytes;
use crate::codec::le_i64_at;
use crate::codec::le_u64_at;
use crate::codec::lemma_i64_le_roundtrip;
use crate::codec::lemma_le_i64_bytes;
use crate::codec::lemma_le_u64_bytes;
use crate::codec::lemma_u64_le_roundtrip;
use crate::codec::push_i64;
use crate::codec::push_u64;
use crate::codec::read_i64;
use crate::codec::read_u64;
use crate::codec::u64_le_bytes;
use crate::codec::write_prefix;
use crate::error::CustomError;
use crate::error::ProgramError;

verus! {

/// Seconds in a day: the period over which the pool's rate is paid once.
pub const DAILY_TS: i64 = 86_400;

/// Length of a packed `Pool`: 1 + 1 + 32 + 32 + 32 + 8 + 8.
pub const POOL_SIZE: usize = 114;

/// Length of a packed `StakeUser`: 1 + 32 + 32 + 8 + 8 + 8.
pub const STAKE_USER_SIZE: usize = 89;

/// A record that knows whether it has been initialized.
pub trait IsInitialized {
    /// Whether the record has been initialized.
    spec fn initialized(&self) -> bool;

    /// Whether the record has been initialized.
    fn is_initialized(&self) -> (b: bool)
        ensures
            b == self.initialized(),
    ;
}

/// A record of known size.
pub trait Sealed: Sized {

}

/// A record with a fixed byte layout.
pub trait Pack: Sealed + IsInitialized {
    /// The length of the packed record.
    const LEN: usize;

    /// The record's `LEN` bytes.
    spec fn spec_pack(&self) -> Seq<u8>;

    /// The record that the first `LEN` bytes of `src` hold, or why they hold
    /// none.
    spec fn spec_unpack_from_slice(src: Seq<u8>) -> Result<Self, ProgramError>;

    /// Writes the record over the first `LEN` bytes of `dst`.
    fn pack_into_slice(&self, dst: &mut [u8])
        requires
            old(dst)@.len() >= Self::LEN,
        ensures
            self.spec_pack().len() == Self::LEN,
            final(dst)@ == self.spec_pack() + old(dst)@.subrange(
                Self::LEN as int,
                old(dst)@.len() as int,
            ),
    ;

    /// Reads a record from the first `LEN` bytes of `src`.
    fn unpack_from_slice(src: &[u8]) -> (r: Result<Self, ProgramError>)
        requires
            src@.len() >= Self::LEN,
        ensures
            r == Self::spec_unpack_from_slice(src@),
    ;

    /// The length of the packed record.
    fn get_packed_len() -> (n: usize)
        ensures
            n == Self::LEN,
    {
        Self::LEN
    }

    /// Reads a record from a buffer of exactly `LEN` bytes and refuses one
    /// that was never initialized.
    fn unpack(input: &[u8]) -> (r: Result<Self, ProgramError>)
        ensures
            input@.len() != Self::LEN ==> r == Err::<Self, ProgramError>(
                ProgramError::InvalidAccountData,
            ),
            input@.len() == Self::LEN ==> r == (match Self::spec_unpack_from_slice(input@) {
                Err(e) => Err(e),
                Ok(value) => if value.initialized() {
                    Ok(value)
                } else {
                    Err(ProgramError::UninitializedAccount)
                },
            }),
    {
        match Self::unpack_unchecked(input) {
            Err(e) => Err(e),
            Ok(value) => {
                if value.is_initialized() {
                    Ok(value)
                } else {
                    Err(ProgramError::UninitializedAccount)
                }
            },
        }
    }

    /// Reads a record from a buffer of exactly `LEN` bytes, initialized or
    /// not.
    fn unpack_unchecked(input: &[u8]) -> (r: Result<Self, ProgramError>)
        ensures
            input@.len() != Self::LEN ==> r == Err::<Self, ProgramError>(
                ProgramError::InvalidAccountData,
            ),
            input@.len() == Self::LEN ==> r == Self::spec_unpack_from_slice(input@),
    {
        if input.len() != Self::LEN {
            return Err(ProgramError::InvalidAccountData);
        }
        Self::unpack_from_slice(input)
    }

    /// Writes the record into a buffer of exactly `LEN` bytes; a buffer of
    /// another length is refused and left as it is.
    fn pack(src: Self, dst: &mut [u8]) -> (r: Result<(), ProgramError>)
        ensures
            old(dst)@.len() == Self::LEN ==> r is Ok && final(dst)@ == src.spec_pack(),
            old(dst)@.len() != Self::LEN ==> r == Err::<(), ProgramError>(
                ProgramError::InvalidAccountData,
            ) && final(dst)@ == old(dst)@,
    {
        if dst.len() != Self::LEN {
            return Err(ProgramError::InvalidAccountData);
        }
        src.pack_into_slice(dst);
        assert(dst@ =~= src.spec_pack());
        Ok(())
    }
}

/// What `Pack::unpack_unchecked` gives: a buffer of any other length than
/// `LEN` holds no record.
pub open spec fn spec_unpack_unchecked<T: Pack>(input: Seq<u8>) -> Result<T, ProgramError> {
    if input.len() != T::LEN {
        Err(ProgramError::InvalidAccountData)
    } else {
        T::spec_unpack_from_slice(input)
    }
}

/// What `Pack::unpack` gives: as `unpack_unchecked`, but a record that was
/// never initialized is refused.
pub open spec fn spec_unpack<T: Pack>(input: Seq<u8>) -> Result<T, ProgramError> {
    match spec_unpack_unchecked::<T>(input) {
        Err(e) => Err(e),
        Ok(value) => if value.initialized() {
            Ok(value)
        } else {
            Err(ProgramError::UninitializedAccount)
        },
    }
}

/// The byte that stands for a flag.
pub open spec fn bool_byte(boolean: bool) -> u8 {
    if boolean {
        1
    } else {
        0
    }
}

/// The flag that a byte stands for: 0 and 1 only.
pub open spec fn byte_bool(byte: u8) -> Result<bool, ProgramError> {
    if byte == 0 {
        Ok(false)
    } else if byte == 1 {
        Ok(true)
    } else {
        Err(ProgramError::InvalidAccountData)
    }
}

/// Writes a flag as one byte.
pub fn pack_bool(boolean: bool, dst: &mut [u8; 1])
    ensures
        final(dst)@ == seq![bool_byte(boolean)],
{
    dst[0] = if boolean {
        1
    } else {
        0
    };
    assert(dst@ =~= seq![bool_byte(boolean)]);
}

/// Reads a flag from one byte; any byte but 0 and 1 is refused.
pub fn unpack_bool(src: &[u8; 1]) -> (r: Result<bool, ProgramError>)
    ensures
        r == byte_bool(src@[0]),
{
    let byte: u8 = src[0];
    if byte == 0 {
        Ok(false)
    } else if byte == 1 {
        Ok(true)
    } else {
        Err(ProgramError::InvalidAccountData)
    }
}

/// Configuration of one staking pool.
#[derive(Clone, Copy, Debug, PartialEq, Eq)]
pub struct Pool {
    /// Initialization state
    pub is_initialized: bool,
    /// Seed from which the pool's authority is derived
    pub bump_seed: u8,
    /// Mint of the token that is staked
    pub stake_token_mint: Address,
    /// Token account that holds what is staked
    pub reserved: Address,
    /// Mint of the token that is paid as reward
    pub reward_mint: Address,
    /// Daily reward ratio numerator
    pub reward_numerator: u64,
    /// Daily reward ratio denominator
    pub reward_denominator: u64,
}

impl Default for Pool {
    fn default() -> (pool: Pool)
        ensures
            !pool.is_initialized,
            pool.bump_seed == 0,
            pool.stake_token_mint@ == Seq::new(32, |i: int| 0u8),
            pool.reserved@ == Seq::new(32, |i: int| 0u8),
            pool.reward_mint@ == Seq::new(32, |i: int| 0u8),
            pool.reward_numerator == 0,
            pool.reward_denominator == 0,
    {
        Pool {
            is_initialized: false,
            bump_seed: 0,
            stake_token_mint: Address::default(),
            reserved: Address::default(),
            reward_mint: Address::default(),
            reward_numerator: 0,
            reward_denominator: 0,
        }
    }
}

impl Sealed for Pool {

}

impl IsInitialized for Pool {
    open spec fn initialized(&self) -> bool {
        self.is_initialized
    }

    fn is_initialized(&self) -> (b: bool) {
        self.is_initialized
    }
}

impl Pack for Pool {
    const LEN: usize = POOL_SIZE;

    open spec fn spec_pack(&self) -> Seq<u8> {
        seq![bool_byte(self.is_initialized), self.bump_seed] + self.stake_token_mint@
            + self.reserved@ + self.reward_mint@ + u64_le_bytes(self.reward_numerator)
            + u64_le_bytes(self.reward_denominator)
    }

    open spec fn spec_unpack_from_slice(src: Seq<u8>) -> Result<Self, ProgramError> {
        match byte_bool(src[0]) {
            Err(e) => Err(e),
            Ok(is_initialized) => Ok(
                Pool {
                    is_initialized,
                    bump_seed: src[1],
                    stake_token_mint: address_at(src, 2),
                    reserved: address_at(src, 34),
                    reward_mint: address_at(src, 66),
                    reward_numerator: le_u64_at(src, 98),
                    reward_denominator: le_u64_at(src, 106),
                },
            ),
        }
    }

    fn pack_into_slice(&self, dst: &mut [u8]) {
        let mut bytes: Vec<u8> = Vec::new();
        bytes.push(if self.is_initialized { 1 } else { 0 });
        bytes.push(self.bump_seed);
        self.stake_token_mint.push_to(&mut bytes);
        self.reserved.push_to(&mut bytes);
        self.reward_mint.push_to(&mut bytes);
        push_u64(&mut bytes, self.reward_numerator);
        push_u64(&mut bytes, self.reward_denominator);
        assert(bytes@ =~= self.spec_pack());
        write_prefix(dst, &bytes);
    }

    fn unpack_from_slice(src: &[u8]) -> (r: Result<Self, ProgramError>) {
        let flag: [u8; 1] = [src[0]];
        let is_initialized = match unpack_bool(&flag) {
            Ok(b) => b,
            Err(e) => { return Err(e); },
        };
        Ok(
            Pool {
                is_initialized,
                bump_seed: src[1],
                stake_token_mint: Address::read_from(src, 2),
                reserved: Address::read_from(src, 34),
                reward_mint: Address::read_from(src, 66),
                reward_numerator: read_u64(src, 98),
                reward_denominator: read_u64(src, 106),
            },
        )
    }
}

/// One participant's stake in one pool.
#[derive(Clone, Copy, Debug, PartialEq, Eq)]
pub struct StakeUser {
    /// Initialization state
    pub is_initialized: bool,
    /// Address of the wallet that owns the stake
    pub owner: Address,
    /// Address of the pool that the stake is in
    pub pool_pubkey: Address,
    /// Amount staked
    pub stake_amount: u64,
    /// Reward amount owed
    pub reward_owed: u64,
    /// Time of the last accrual, in seconds since the Unix epoch
    pub last_update: i64,
}

impl Default for StakeUser {
    fn default() -> (user: StakeUser)
        ensures
            !user.is_initialized,
            user.owner@ == Seq::new(32, |i: int| 0u8),
            user.pool_pubkey@ == Seq::new(32, |i: int| 0u8),
            user.stake_amount == 0,
            user.reward_owed == 0,
            user.last_update == 0,
    {
        StakeUser {
            is_initialized: false,
            owner: Address::default(),
            pool_pubkey: Address::default(),
            stake_amount: 0,
            reward_owed: 0,
            last_update: 0,
        }
    }
}

impl Sealed for StakeUser {

}

impl IsInitialized for StakeUser {
    open spec fn initialized(&self) -> bool {
        self.is_initialized
    }

    fn is_initialized(&self) -> (b: bool) {
        self.is_initialized
    }
}

impl Pack for StakeUser {
    const LEN: usize = STAKE_USER_SIZE;

    open spec fn spec_pack(&self) -> Seq<u8> {
        seq![bool_byte(self.is_initialized)] + self.owner@ + self.pool_pubkey@ + u64_le_bytes(
            self.stake_amount,
        ) + u64_le_bytes(self.reward_owed) + i64_le_bytes(self.last_update)
    }

    open spec fn spec_unpack_from_slice(src: Seq<u8>) -> Result<Self, ProgramError> {
        match byte_bool(src[0]) {
            Err(e) => Err(e),
            Ok(is_initialized) => Ok(
                StakeUser {
                    is_initialized,
                    owner: address_at(src, 1),
                    pool_pubkey: address_at(src, 33),
                    stake_amount: le_u64_at(src, 65),
                    reward_owed: le_u64_at(src, 73),
                    last_update: le_i64_at(src, 81),
                },
            ),
        }
    }

    fn pack_into_slice(&self, dst: &mut [u8]) {
        let mut bytes: Vec<u8> = Vec::new();
        bytes.push(if self.is_initialized { 1 } else { 0 });
        self.owner.push_to(&mut bytes);
        self.pool_pubkey.push_to(&mut bytes);
        push_u64(&mut bytes, self.stake_amount);
        push_u64(&mut bytes, self.reward_owed);
        push_i64(&mut bytes, self.last_update);
        assert(bytes@ =~= self.spec_pack());
        write_prefix(dst, &bytes);
    }

    fn unpack_from_slice(src: &[u8]) -> (r: Result<Self, ProgramError>) {
        let flag: [u8; 1] = [src[0]];
        let is_initialized = match unpack_bool(&flag) {
            Ok(b) => b,
            Err(e) => { return Err(e); },
        };
        Ok(
            StakeUser {
                is_initialized,
                owner: Address::read_from(src, 1),
                pool_pubkey: Address::read_from(src, 33),
                stake_amount: read_u64(src, 65),
                reward_owed: read_u64(src, 73),
                last_update: read_i64(src, 81),
            },
        )
    }
}

/// A packed pool takes 114 bytes, a packed stake record 89.
pub proof fn lemma_record_lengths()
    ensures
        Pool::LEN == 114,
        StakeUser::LEN == 89,
        Pool::LEN == POOL_SIZE,
        StakeUser::LEN == STAKE_USER_SIZE,
{
}

/// Every pool record reads back from its own bytes, whatever follows them.
pub proof fn lemma_pool_round_trip(pool: Pool, rest: Seq<u8>)
    ensures
        pool.spec_pack().len() == Pool::LEN,
        Pool::spec_unpack_from_slice(pool.spec_pack() + rest) == Ok::<Pool, ProgramError>(pool),
{
    let s = pool.spec_pack() + rest;
    assert(s.subrange(2, 34) =~= pool.stake_token_mint@);
    assert(s.subrange(34, 66) =~= pool.reserved@);
    assert(s.subrange(66, 98) =~= pool.reward_mint@);
    assert(s.subrange(98, 106) =~= u64_le_bytes(pool.reward_numerator));
    assert(s.subrange(106, 114) =~= u64_le_bytes(pool.reward_denominator));
    lemma_address_roundtrip(pool.stake_token_mint, s, 2);
    lemma_address_roundtrip(pool.reserved, s, 34);
    lemma_address_roundtrip(pool.reward_mint, s, 66);
    lemma_u64_le_roundtrip(pool.reward_numerator, s, 98);
    lemma_u64_le_roundtrip(pool.reward_denominator, s, 106);
    assert(s[0] == bool_byte(pool.is_initialized));
    assert(s[1] == pool.bump_seed);
}

/// Unpacking what was packed gives the pool back: always without the
/// initialization check, and with it for an initialized pool.
pub proof fn lemma_pool_unpack_pack(pool: Pool)
    ensures
        spec_unpack_unchecked::<Pool>(pool.spec_pack()) == Ok::<Pool, ProgramError>(pool),
        pool.is_initialized ==> spec_unpack::<Pool>(pool.spec_pack()) == Ok::<Pool, ProgramError>(
            pool,
        ),
        !pool.is_initialized ==> spec_unpack::<Pool>(pool.spec_pack()) == Err::<
            Pool,
            ProgramError,
        >(ProgramError::UninitializedAccount),
{
    lemma_pool_round_trip(pool, Seq::empty());
    assert(pool.spec_pack() + Seq::<u8>::empty() =~= pool.spec_pack());
}

/// Every stake record reads back from its own bytes, whatever follows them.
pub proof fn lemma_stake_user_round_trip(user: StakeUser, rest: Seq<u8>)
    ensures
        user.spec_pack().len() == StakeUser::LEN,
        StakeUser::spec_unpack_from_slice(user.spec_pack() + rest) == Ok::<
            StakeUser,
            ProgramError,
        >(user),
{
    let s = user.spec_pack() + rest;
    assert(s.subrange(1, 33) =~= user.owner@);
    assert(s.subrange(33, 65) =~= user.pool_pubkey@);
    assert(s.subrange(65, 73) =~= u64_le_bytes(user.stake_amount));
    assert(s.subrange(73, 81) =~= u64_le_bytes(user.reward_owed));
    assert(s.subrange(81, 89) =~= i64_le_bytes(user.last_update));
    lemma_address_roundtrip(user.owner, s, 1);
    lemma_address_roundtrip(user.pool_pubkey, s, 33);
    lemma_u64_le_roundtrip(user.stake_amount, s, 65);
    lemma_u64_le_roundtrip(user.reward_owed, s, 73);
    lemma_i64_le_roundtrip(user.last_update, s, 81);
    assert(s[0] == bool_byte(user.is_initialized));
}

/// Unpacking what was packed gives the stake record back: always without
/// the initialization check, and with it for an initialized record.
pub proof fn lemma_stake_user_unpack_pack(user: StakeUser)
    ensures
        spec_unpack_unchecked::<StakeUser>(user.spec_pack()) == Ok::<StakeUser, ProgramError>(
            user,
        ),
        user.is_initialized ==> spec_unpack::<StakeUser>(user.spec_pack()) == Ok::<
            StakeUser,
            ProgramError,
        >(user),
        !user.is_initialized ==> spec_unpack::<StakeUser>(user.spec_pack()) == Err::<
            StakeUser,
            ProgramError,
        >(ProgramError::UninitializedAccount),
{
    lemma_stake_user_round_trip(user, Seq::empty());
    assert(user.spec_pack() + Seq::<u8>::empty() =~= user.spec_pack());
}

/// A pool is read from one byte string only: packing the pool that was
/// read from 114 bytes gives those bytes back.
pub proof fn lemma_pool_pack_unpack(src: Seq<u8>)
    requires
        src.len() >= Pool::LEN,
        Pool::spec_unpack_from_slice(src) is Ok,
    ensures
        Pool::spec_unpack_from_slice(src)->Ok_0.spec_pack() == src.subrange(0, Pool::LEN as int),
{
    let pool = Pool::spec_unpack_from_slice(src)->Ok_0;
    lemma_address_at(src, 2);
    lemma_address_at(src, 34);
    lemma_address_at(src, 66);
    lemma_le_u64_bytes(src, 98);
    lemma_le_u64_bytes(src, 106);
    assert(pool.spec_pack() =~= src.subrange(0, 114));
}

/// A stake record is read from one byte string only: packing the record
/// that was read from 89 bytes gives those bytes back.
pub proof fn lemma_stake_user_pack_unpack(src: Seq<u8>)
    requires
        src.len() >= StakeUser::LEN,
        StakeUser::spec_unpack_from_slice(src) is Ok,
    ensures
        StakeUser::spec_unpack_from_slice(src)->Ok_0.spec_pack() == src.subrange(
            0,
            StakeUser::LEN as int,
        ),
{
    let user = StakeUser::spec_unpack_from_slice(src)->Ok_0;
    lemma_address_at(src, 1);
    lemma_address_at(src, 33);
    lemma_le_u64_bytes(src, 65);
    lemma_le_u64_bytes(src, 73);
    lemma_le_i64_bytes(src, 81);
    assert(user.spec_pack() =~= src.subrange(0, 89));
}

/// What a new stake record is set up with.
pub struct InitStakeUserParams {
    /// Address of the pool that the stake is in
    pub pool_pubkey: Address,
    /// Address of the wallet that owns the stake
    pub owner: Address,
}

/// The reward that a stake earns over `elapsed` seconds at the daily rate
/// `numerator / denominator`: the stake times the numerator, divided by the
/// denominator, times the seconds, divided by the seconds of a day, each
/// division rounding down. The order matters and is part of the rule.
pub open spec fn reward_for(stake_amount: u64, numerator: u64, denominator: u64, elapsed: int) -> int {
    (numerator * stake_amount) / (denominator as int) * elapsed / (DAILY_TS as int)
}

/// Whether computing `reward_for` and adding it to `reward_owed` stays
/// within 64 bits at every step and divides by no zero.
pub open spec fn reward_computable(
    stake_amount: u64,
    reward_owed: u64,
    numerator: u64,
    denominator: u64,
    elapsed: int,
) -> bool {
    &&& numerator * stake_amount <= u64::MAX
    &&& denominator != 0
    &&& (numerator * stake_amount) / (denominator as int) * elapsed <= u64::MAX
    &&& reward_for(stake_amount, numerator, denominator, elapsed) + reward_owed <= u64::MAX
}

impl StakeUser {
    /// The record after `init`.
    pub open spec fn spec_init(self, params: InitStakeUserParams) -> StakeUser {
        StakeUser {
            is_initialized: true,
            pool_pubkey: params.pool_pubkey,
            owner: params.owner,
            ..self
        }
    }

    /// The record after `stake`, or why nothing can be added.
    pub open spec fn spec_stake(self, amount: u64) -> Result<StakeUser, ProgramError> {
        if self.stake_amount + amount > u64::MAX {
            Err(ProgramError::Custom(CustomError::CalculationFailure))
        } else {
            Ok(StakeUser { stake_amount: (self.stake_amount + amount) as u64, ..self })
        }
    }

    /// The record after `unstake`, or why nothing can be taken.
    pub open spec fn spec_unstake(self, amount: u64) -> Result<StakeUser, ProgramError> {
        if amount > self.stake_amount {
            Err(ProgramError::Custom(CustomError::InsufficientLiquidity))
        } else {
            Ok(StakeUser { stake_amount: (self.stake_amount - amount) as u64, ..self })
        }
    }

    /// The record after `update_reward_owed`, or why the reward cannot be
    /// computed. Nothing is recomputed while nothing is staked, and a clock
    /// that has not advanced changes nothing.
    pub open spec fn spec_update_reward_owed(
        self,
        numerator: u64,
        denominator: u64,
        current_ts: i64,
    ) -> Result<StakeUser, ProgramError> {
        let elapsed = current_ts - self.last_update;
        if self.stake_amount == 0 {
            Ok(self)
        } else if elapsed > i64::MAX || elapsed < i64::MIN {
            Err(ProgramError::Custom(CustomError::CalculationFailure))
        } else if elapsed <= 0 {
            Ok(self)
        } else if !reward_computable(
            self.stake_amount,
            self.reward_owed,
            numerator,
            denominator,
            elapsed,
        ) {
            Err(ProgramError::Custom(CustomError::CalculationFailure))
        } else {
            Ok(
                StakeUser {
                    reward_owed: (self.reward_owed + reward_for(
                        self.stake_amount,
                        numerator,
                        denominator,
                        elapsed,
                    )) as u64,
                    last_update: current_ts,
                    ..self
                },
            )
        }
    }

    /// The record after `claim` and the amount claimed, or why there is
    /// nothing to claim.
    pub open spec fn spec_claim(self) -> Result<(StakeUser, u64), ProgramError> {
        if self.reward_owed == 0 {
            Err(ProgramError::Custom(CustomError::InsufficientClaimAmount))
        } else {
            Ok((StakeUser { reward_owed: 0, ..self }, self.reward_owed))
        }
    }

    /// Marks the record initialized and binds it to its pool and owner.
    pub fn init(&mut self, params: InitStakeUserParams)
        ensures
            *final(self) == old(self).spec_init(params),
    {
        self.is_initialized = true;
        self.pool_pubkey = params.pool_pubkey;
        self.owner = params.owner;
    }

    /// Adds `amount` to the stake. Fails with `CalculationFailure`, and
    /// changes nothing, if the sum does not fit.
    pub fn stake(&mut self, amount: u64) -> (r: Result<(), ProgramError>)
        ensures
            match old(self).spec_stake(amount) {
                Ok(after) => r is Ok && *final(self) == after,
                Err(e) => r == Err::<(), ProgramError>(e) && *final(self) == *old(self),
            },
    {
        match self.stake_amount.checked_add(amount) {
            Some(sum) => {
                self.stake_amount = sum;
                Ok(())
            },
            None => Err(ProgramError::Custom(CustomError::CalculationFailure)),
        }
    }

    /// Takes `amount` from the stake. Fails with `InsufficientLiquidity`,
    /// and changes nothing, if more is asked than is staked.
    pub fn unstake(&mut self, amount: u64) -> (r: Result<(), ProgramError>)
        ensures
            match old(self).spec_unstake(amount) {
                Ok(after) => r is Ok && *final(self) == after,
                Err(e) => r == Err::<(), ProgramError>(e) && *final(self) == *old(self),
            },
            amount > old(self).stake_amount ==> r == Err::<(), ProgramError>(
                ProgramError::Custom(CustomError::InsufficientLiquidity),
            ) && *final(self) == *old(self),
    {
        if amount > self.stake_amount {
            return Err(ProgramError::Custom(CustomError::InsufficientLiquidity));
        }
        match self.stake_amount.checked_sub(amount) {
            Some(left) => {
                self.stake_amount = left;
                Ok(())
            },
            None => Err(ProgramError::Custom(CustomError::CalculationFailure)),
        }
    }

    /// Brings the reward up to date at `current_ts`: adds the reward earned
    /// since `last_update` and moves `last_update` to `current_ts`. While
    /// nothing is staked nothing is recomputed and nothing changes; a clock
    /// that has not advanced changes nothing either, and neither is an
    /// error. Any overflow, or a zero denominator, fails with
    /// `CalculationFailure` and changes nothing. The reward owed and the
    /// time of the last update never go down.
    pub fn update_reward_owed(&mut self, numerator: u64, denominator: u64, current_ts: i64) -> (r:
        Result<(), ProgramError>)
        ensures
            match old(self).spec_update_reward_owed(numerator, denominator, current_ts) {
                Ok(after) => r is Ok && *final(self) == after,
                Err(e) => r == Err::<(), ProgramError>(e) && *final(self) == *old(self),
            },
            old(self).stake_amount == 0 ==> r is Ok && *final(self) == *old(self),
            final(self).reward_owed >= old(self).reward_owed,
            final(self).last_update >= old(self).last_update,
            final(self).stake_amount == old(self).stake_amount,
    {
        proof {
            lemma_accrue_monotonic(*self, numerator, denominator, current_ts);
        }
        if self.stake_amount == 0 {
            return Ok(());
        }
        let calc_period: i64 = match current_ts.checked_sub(self.last_update) {
            Some(period) => period,
            None => { return Err(ProgramError::Custom(CustomError::CalculationFailure)); },
        };
        if calc_period > 0 {
            let product: u64 = match numerator.checked_mul(self.stake_amount) {
                Some(v) => v,
                None => { return Err(ProgramError::Custom(CustomError::CalculationFailure)); },
            };
            let daily: u64 = match product.checked_div(denominator) {
                Some(v) => v,
                None => { return Err(ProgramError::Custom(CustomError::CalculationFailure)); },
            };
            let scaled: u64 = match daily.checked_mul(calc_period as u64) {
                Some(v) => v,
                None => { return Err(ProgramError::Custom(CustomError::CalculationFailure)); },
            };
            let delta: u64 = match scaled.checked_div(DAILY_TS as u64) {
                Some(v) => v,
                None => { return Err(ProgramError::Custom(CustomError::CalculationFailure)); },
            };
            let owed: u64 = match delta.checked_add(self.reward_owed) {
                Some(v) => v,
                None => { return Err(ProgramError::Custom(CustomError::CalculationFailure)); },
            };
            self.reward_owed = owed;
            self.last_update = current_ts;
        }
        Ok(())
    }

    /// Hands out the reward owed and sets it to zero. Fails with
    /// `InsufficientClaimAmount`, and changes nothing, if none is owed.
    pub fn claim(&mut self) -> (r: Result<u64, ProgramError>)
        ensures
            match old(self).spec_claim() {
                Ok((after, amount)) => r == Ok::<u64, ProgramError>(amount) && *final(self)
                    == after,
                Err(e) => r == Err::<u64, ProgramError>(e) && *final(self) == *old(self),
            },
            r is Ok ==> final(self).reward_owed == 0,
    {
        if self.reward_owed == 0 {
            return Err(ProgramError::Custom(CustomError::InsufficientClaimAmount));
        }
        let ret: u64 = self.reward_owed;
        self.reward_owed = 0;
        Ok(ret)
    }
}

/// The reward for no time is nothing, and the reward never is negative.
pub proof fn lemma_reward_nonnegative(
    stake_amount: u64,
    numerator: u64,
    denominator: u64,
    elapsed: int,
)
    requires
        elapsed >= 0,
        denominator != 0,
    ensures
        reward_for(stake_amount, numerator, denominator, elapsed) >= 0,
        reward_for(stake_amount, numerator, denominator, 0) == 0,
{
    let product = numerator * stake_amount;
    assert(product >= 0) by (nonlinear_arith)
        requires
            product == numerator * stake_amount,
    ;
    let daily = product / (denominator as int);
    assert(daily >= 0) by (nonlinear_arith)
        requires
            product >= 0,
            denominator > 0,
            daily == product / (denominator as int),
    ;
    assert(daily * elapsed >= 0) by (nonlinear_arith)
        requires
            daily >= 0,
            elapsed >= 0,
    ;
    assert(daily * 0 == 0);
}

/// An accrual never lowers the reward owed, never moves the last update
/// back, and leaves everything else as it was.
pub proof fn lemma_accrue_monotonic(user: StakeUser, numerator: u64, denominator: u64, current_ts: i64)
    ensures
        user.spec_update_reward_owed(numerator, denominator, current_ts) matches Ok(after) ==> {
            &&& after.reward_owed >= user.reward_owed
            &&& after.last_update >= user.last_update
            &&& after.last_update == current_ts || after == user
            &&& after.stake_amount == user.stake_amount
            &&& after.owner == user.owner
            &&& after.pool_pubkey == user.pool_pubkey
            &&& after.is_initialized == user.is_initialized
        },
{
    let elapsed = current_ts - user.last_update;
    if elapsed > 0 && denominator != 0 {
        lemma_reward_nonnegative(user.stake_amount, numerator, denominator, elapsed);
    }
}

/// Accruing a second time at the same instant changes nothing: once the
/// first accrual has run, the clock has not advanced for the second.
pub proof fn lemma_accrue_idempotent(user: StakeUser, numerator: u64, denominator: u64, now: i64)
    ensures
        user.spec_update_reward_owed(numerator, denominator, now) matches Ok(after)
            ==> after.spec_update_reward_owed(numerator, denominator, now) == Ok::<
            StakeUser,
            ProgramError,
        >(after),
{
}

/// An accrual with nothing staked changes nothing and is no error, whatever
/// the rate and the time.
pub proof fn lemma_accrue_nothing_staked(
    user: StakeUser,
    numerator: u64,
    denominator: u64,
    now: i64,
)
    requires
        user.stake_amount == 0,
    ensures
        user.spec_update_reward_owed(numerator, denominator, now) == Ok::<StakeUser, ProgramError>(
            user,
        ),
{
}

/// An accrual at or before the last update changes nothing and is no error.
pub proof fn lemma_accrue_clock_not_advanced(
    user: StakeUser,
    numerator: u64,
    denominator: u64,
    now: i64,
)
    requires
        now <= user.last_update,
        now - user.last_update >= i64::MIN,
    ensures
        user.spec_update_reward_owed(numerator, denominator, now) == Ok::<StakeUser, ProgramError>(
            user,
        ),
{
}

/// Accruing over two adjoining intervals at one rate, with the stake
/// unchanged, owes what accruing once over both owes, or one unit less:
/// each step rounds down, and nothing else is lost. Where the single
/// accrual can be computed, so can the two.
pub proof fn lemma_accrue_split(user: StakeUser, numerator: u64, denominator: u64, t1: i64, t2: i64)
    requires
        user.last_update <= t1 <= t2,
    ensures
        user.spec_update_reward_owed(numerator, denominator, t2) matches Ok(direct) ==> {
            &&& user.spec_update_reward_owed(numerator, denominator, t1) matches Ok(first)
            &&& first.spec_update_reward_owed(numerator, denominator, t2) matches Ok(second)
            &&& second.reward_owed <= direct.reward_owed <= second.reward_owed + 1
            &&& second.last_update == direct.last_update
            &&& second.stake_amount == direct.stake_amount
        },
{
    let t0 = user.last_update;
    if user.stake_amount != 0 && user.spec_update_reward_owed(numerator, denominator, t2) is Ok && t2 > t0 {
        let e1 = t1 - t0;
        let e2 = t2 - t1;
        let e = t2 - t0;
        let product = numerator * user.stake_amount;
        let daily = product / (denominator as int);
        assert(product >= 0) by (nonlinear_arith)
            requires
                product == numerator * user.stake_amount,
        ;
        assert(daily >= 0) by (nonlinear_arith)
            requires
                product >= 0,
                denominator > 0,
                daily == product / (denominator as int),
        ;
        assert(daily * e == daily * e1 + daily * e2 && daily * e1 >= 0 && daily * e2 >= 0)
            by (nonlinear_arith)
            requires
                daily >= 0,
                e1 >= 0,
                e2 >= 0,
                e == e1 + e2,
        ;
        let a = daily * e1;
        let b = daily * e2;
        assert(a / 86400 + b / 86400 <= (a + b) / 86400 <= a / 86400 + b / 86400 + 1);
        assert(daily * 0 == 0);
    }
}

/// Whenever the stake times the rate's numerator does not fit in 64 bits,
/// an accrual over any time that has passed fails with
/// `CalculationFailure`: so it does for the largest stake at the largest
/// numerator. Nothing wraps around.
pub proof fn lemma_accrue_overflow_fails(
    user: StakeUser,
    numerator: u64,
    denominator: u64,
    current_ts: i64,
)
    requires
        current_ts > user.last_update,
        numerator * user.stake_amount > u64::MAX,
    ensures
        user.spec_update_reward_owed(numerator, denominator, current_ts) == Err::<
            StakeUser,
            ProgramError,
        >(ProgramError::Custom(CustomError::CalculationFailure)),
{
    assert(user.stake_amount != 0) by (nonlinear_arith)
        requires
            numerator * user.stake_amount > u64::MAX,
    ;
}

/// The largest stake at the largest numerator is such a case.
pub proof fn lemma_accrue_max_overflows(user: StakeUser, denominator: u64, current_ts: i64)
    requires
        current_ts > user.last_update,
        user.stake_amount == u64::MAX,
    ensures
        user.spec_update_reward_owed(u64::MAX, denominator, current_ts) == Err::<StakeUser, ProgramError>(
            ProgramError::Custom(CustomError::CalculationFailure),
        ),
{
    assert(u64::MAX * u64::MAX > u64::MAX) by (nonlinear_arith);
    lemma_accrue_overflow_fails(user, u64::MAX, denominator, current_ts);
}

/// After a claim nothing is owed, and a second claim right after it fails
/// with `InsufficientClaimAmount`, also when the reward is brought up to
/// date again at the same instant in between.
pub proof fn lemma_claim_zeroes(user: StakeUser, numerator: u64, denominator: u64, now: i64)
    ensures
        user.spec_claim() matches Ok((after, amount)) ==> {
            &&& amount == user.reward_owed
            &&& amount > 0
            &&& after.reward_owed == 0
            &&& after.spec_claim() == Err::<(StakeUser, u64), ProgramError>(
                ProgramError::Custom(CustomError::InsufficientClaimAmount),
            )
        },
        user.spec_update_reward_owed(numerator, denominator, now) matches Ok(accrued) ==> (
        accrued.spec_claim() matches Ok((after, amount)) ==> {
            &&& after.spec_update_reward_owed(numerator, denominator, now) == Ok::<StakeUser, ProgramError>(
                after,
            )
            &&& after.spec_claim() == Err::<(StakeUser, u64), ProgramError>(
                ProgramError::Custom(CustomError::InsufficientClaimAmount),
            )
        }),
{
    lemma_accrue_idempotent(user, numerator, denominator, now);
    lemma_accrue_monotonic(user, numerator, denominator, now);
}

} // verus!
