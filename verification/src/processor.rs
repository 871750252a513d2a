//! The six commands: what each checks, what it changes, and what it asks of
//! the token ledger.

use vstd::prelude::*;
use crate::address::Address;
use crate::address::authority_check;
use crate::address::check_authority;
use crate::address::create_program_address;
use crate::address::derived_address;
use crate::error::CustomError;
use crate::error::ProgramError;
use crate::instruction::InitData;
use crate::instruction::InstructionType;
use crate::instruction::StakeData;
use crate::state::InitStakeUserParams;
use crate::state::IsInitialized;
use crate::state::Pack;
use crate::state::Pool;
use crate::state::spec_unpack;
use crate::state::spec_unpack_unchecked;
use crate::state::StakeUser;
use crate::sysvar::clock_timestamp;
use crate::sysvar::clock_unix_timestamp;
use crate::sysvar::spec_clock_result;
use crate::token::AccountRef;
use crate::token::AuthoritySeeds;
use crate::token::Mint;
use crate::token::REWARD_DECIMALS;
use crate::token::spec_init_account_call;
use crate::token::spec_init_mint_call;
use crate::token::spec_mint_to_call;
use crate::token::spec_transfer_call;
use crate::token::spec_unpack_mint;
use crate::token::spec_unpack_token_account;
use crate::token::spl_token_init_account;
use crate::token::spl_token_init_mint;
use crate::token::spl_token_mint_to;
use crate::token::spl_token_transfer;
use crate::token::TokenAccount;
use crate::token::TokenCall;
use crate::token::TokenCallView;
use crate::token::TokenInitializeAccountParams;
use crate::token::TokenInitializeMintParams;
use crate::token::TokenMintToParams;
use crate::token::TokenTransferParams;
use crate::token::unpack_mint_data;
use crate::token::unpack_token_account_data;

verus! {

/// An account as a command is handed it: what the ledger knows of the
/// account, and the bytes it holds.
#[derive(Clone, Debug, PartialEq, Eq)]
pub struct AccountInfo {
    /// The account's address
    pub key: Address,
    /// Whether the command was signed for this account
    pub is_signer: bool,
    /// The account's balance
    pub lamports: u64,
    /// The bytes that the account holds
    pub data: Vec<u8>,
    /// Address of the program that owns the account
    pub owner: Address,
}

/// The place and address of the account at `index`.
pub fn account_ref(accounts: &Vec<AccountInfo>, index: usize) -> (r: AccountRef)
    requires
        index < accounts@.len(),
    ensures
        r == spec_account_ref(accounts@, index),
{
    AccountRef { index, key: accounts[index].key }
}

/// The place and address of the account at `index`.
pub open spec fn spec_account_ref(accounts: Seq<AccountInfo>, index: usize) -> AccountRef {
    AccountRef { index, key: accounts[index as int].key }
}

/// Whether `after` is `before` with the bytes of the account at `index`
/// replaced by `data`, and nothing else changed.
pub open spec fn record_written(
    before: Seq<AccountInfo>,
    after: Seq<AccountInfo>,
    index: int,
    data: Seq<u8>,
) -> bool {
    &&& after.len() == before.len()
    &&& forall|j: int| 0 <= j < before.len() && j != index ==> after[j] == before[j]
    &&& after[index].data@ == data
    &&& after[index].key == before[index].key
    &&& after[index].is_signer == before[index].is_signer
    &&& after[index].lamports == before[index].lamports
    &&& after[index].owner == before[index].owner
}

/// The time at which a command runs that has its clock account at place
/// `clock` and reads `needed` accounts in all, or why it cannot run: the
/// accounts up to the clock must be there, the clock must be the host's,
/// and the accounts after it must be there.
pub open spec fn spec_command_time(accounts: Seq<AccountInfo>, clock: int, needed: int) -> Result<
    i64,
    ProgramError,
> {
    if accounts.len() <= clock {
        Err(ProgramError::NotEnoughAccountKeys)
    } else {
        match spec_clock_result(clock_timestamp(accounts[clock].key@, accounts[clock].data@)) {
            Err(e) => Err(e),
            Ok(now) => if accounts.len() < needed {
                Err(ProgramError::NotEnoughAccountKeys)
            } else {
                Ok(now)
            },
        }
    }
}

/// Reads the time for a command: see `spec_command_time`.
pub fn command_time(accounts: &Vec<AccountInfo>, clock: usize, needed: usize) -> (r: Result<
    i64,
    ProgramError,
>)
    ensures
        r == spec_command_time(accounts@, clock as int, needed as int),
        r is Ok ==> accounts@.len() >= needed && accounts@.len() > clock,
{
    if accounts.len() <= clock {
        return Err(ProgramError::NotEnoughAccountKeys);
    }
    let now = match clock_unix_timestamp(&accounts[clock].key, accounts[clock].data.as_slice()) {
        Ok(now) => now,
        Err(e) => { return Err(e); },
    };
    if accounts.len() < needed {
        return Err(ProgramError::NotEnoughAccountKeys);
    }
    Ok(now)
}

/// Fails with `NotRentExempt` if the account's balance is below the
/// minimum that exempts an account of its size from rent.
pub fn assert_rent_exempt(minimum_balance: u64, account_info: &AccountInfo) -> (r: Result<
    (),
    ProgramError,
>)
    ensures
        r == (if account_info.lamports < minimum_balance {
            Err::<(), ProgramError>(ProgramError::Custom(CustomError::NotRentExempt))
        } else {
            Ok(())
        }),
{
    if account_info.lamports < minimum_balance {
        Err(ProgramError::Custom(CustomError::NotRentExempt))
    } else {
        Ok(())
    }
}

/// What `assert_uninitialized` gives for an account's bytes.
pub open spec fn spec_assert_uninitialized<T: Pack>(data: Seq<u8>) -> Result<T, ProgramError> {
    match spec_unpack_unchecked::<T>(data) {
        Err(e) => Err(e),
        Ok(account) => if account.initialized() {
            Err(ProgramError::Custom(CustomError::AlreadyInUse))
        } else {
            Ok(account)
        },
    }
}

/// Reads the record that an account holds and fails with `AlreadyInUse` if
/// it has been initialized before.
pub fn assert_uninitialized<T: Pack>(account_info: &AccountInfo) -> (r: Result<T, ProgramError>)
    ensures
        r == spec_assert_uninitialized::<T>(account_info.data@),
{
    match T::unpack_unchecked(account_info.data.as_slice()) {
        Err(e) => Err(e),
        Ok(account) => {
            if account.is_initialized() {
                Err(ProgramError::Custom(CustomError::AlreadyInUse))
            } else {
                Ok(account)
            }
        },
    }
}

/// Reads the mint that an account of the token program holds.
pub fn unpack_mint(account_info: &AccountInfo, token_program_id: &Address) -> (r: Result<
    Mint,
    ProgramError,
>)
    ensures
        r == spec_unpack_mint(account_info.owner, account_info.data@, *token_program_id),
{
    unpack_mint_data(&account_info.owner, account_info.data.as_slice(), token_program_id)
}

/// Reads the token account that an account of the token program holds.
pub fn unpack_token_account(account_info: &AccountInfo, token_program_id: &Address) -> (r: Result<
    TokenAccount,
    ProgramError,
>)
    ensures
        r == spec_unpack_token_account(account_info.owner, account_info.data@, *token_program_id),
{
    unpack_token_account_data(&account_info.owner, account_info.data.as_slice(), token_program_id)
}

/// The stake record after a `Stake` of `amount` at time `now`, or the
/// error of the first check that fails. The checks, in order: both records
/// belong to the program; the stake record is initialized; its owner
/// signed and is the owner on record; the pool is initialized; the
/// destination is the pool's reserve; source and destination are token
/// accounts of the pool's stake mint; the source holds the amount. Then the
/// reward is brought up to date, or the clock started on a first stake, and
/// the amount added.
pub open spec fn spec_stake_decision(
    program_id: Address,
    pool_info: AccountInfo,
    user_info: AccountInfo,
    owner_info: AccountInfo,
    destination_key: Address,
    source_token: Result<TokenAccount, ProgramError>,
    destination_token: Result<TokenAccount, ProgramError>,
    amount: u64,
    now: i64,
) -> Result<StakeUser, ProgramError> {
    if pool_info.owner@ != program_id@ || user_info.owner@ != program_id@ {
        Err(ProgramError::Custom(CustomError::InvalidAccountOwner))
    } else if spec_unpack::<StakeUser>(user_info.data@) is Err {
        Err(spec_unpack::<StakeUser>(user_info.data@)->Err_0)
    } else if !owner_info.is_signer {
        Err(ProgramError::Custom(CustomError::InvalidSigner))
    } else if spec_unpack::<StakeUser>(user_info.data@)->Ok_0.owner@ != owner_info.key@ {
        Err(ProgramError::Custom(CustomError::InvalidStakeOwner))
    } else if spec_unpack::<Pool>(pool_info.data@) is Err {
        Err(spec_unpack::<Pool>(pool_info.data@)->Err_0)
    } else if spec_unpack::<Pool>(pool_info.data@)->Ok_0.reserved@ != destination_key@ {
        Err(ProgramError::Custom(CustomError::InvalidTokenAccount))
    } else if source_token is Err {
        Err(source_token->Err_0)
    } else if destination_token is Err {
        Err(destination_token->Err_0)
    } else if source_token->Ok_0.mint@ != destination_token->Ok_0.mint@ {
        Err(ProgramError::Custom(CustomError::InvalidTokenMint))
    } else if source_token->Ok_0.mint@ != spec_unpack::<Pool>(
        pool_info.data@,
    )->Ok_0.stake_token_mint@ {
        Err(ProgramError::Custom(CustomError::InvalidTokenMint))
    } else if source_token->Ok_0.amount < amount {
        Err(ProgramError::Custom(CustomError::InsufficientFunds))
    } else {
        let user = spec_unpack::<StakeUser>(user_info.data@)->Ok_0;
        let pool = spec_unpack::<Pool>(pool_info.data@)->Ok_0;
        let accrued = if user.stake_amount != 0 {
            user.spec_update_reward_owed(pool.reward_numerator, pool.reward_denominator, now)
        } else {
            Ok(StakeUser { last_update: now, ..user })
        };
        match accrued {
            Err(e) => Err(e),
            Ok(current) => current.spec_stake(amount),
        }
    }
}

/// Decides a `Stake`: see `spec_stake_decision`. The two token accounts
/// are handed in as the token ledger read them.
pub fn stake_decision(
    program_id: &Address,
    pool_info: &AccountInfo,
    user_info: &AccountInfo,
    owner_info: &AccountInfo,
    destination_key: &Address,
    source_token: Result<TokenAccount, ProgramError>,
    destination_token: Result<TokenAccount, ProgramError>,
    amount: u64,
    now: i64,
) -> (r: Result<StakeUser, ProgramError>)
    ensures
        r == spec_stake_decision(
            *program_id,
            *pool_info,
            *user_info,
            *owner_info,
            *destination_key,
            source_token,
            destination_token,
            amount,
            now,
        ),
{
    if pool_info.owner != *program_id || user_info.owner != *program_id {
        return Err(ProgramError::Custom(CustomError::InvalidAccountOwner));
    }
    let mut stake_user = match StakeUser::unpack(user_info.data.as_slice()) {
        Ok(user) => user,
        Err(e) => { return Err(e); },
    };
    if !owner_info.is_signer {
        return Err(ProgramError::Custom(CustomError::InvalidSigner));
    }
    if stake_user.owner != owner_info.key {
        return Err(ProgramError::Custom(CustomError::InvalidStakeOwner));
    }
    let stake_pool = match Pool::unpack(pool_info.data.as_slice()) {
        Ok(pool) => pool,
        Err(e) => { return Err(e); },
    };
    if stake_pool.reserved != *destination_key {
        return Err(ProgramError::Custom(CustomError::InvalidTokenAccount));
    }
    let source = match source_token {
        Ok(token) => token,
        Err(e) => { return Err(e); },
    };
    let destination = match destination_token {
        Ok(token) => token,
        Err(e) => { return Err(e); },
    };
    if source.mint != destination.mint {
        return Err(ProgramError::Custom(CustomError::InvalidTokenMint));
    }
    if source.mint != stake_pool.stake_token_mint {
        return Err(ProgramError::Custom(CustomError::InvalidTokenMint));
    }
    if source.amount < amount {
        return Err(ProgramError::Custom(CustomError::InsufficientFunds));
    }
    if stake_user.stake_amount != 0 {
        match stake_user.update_reward_owed(
            stake_pool.reward_numerator,
            stake_pool.reward_denominator,
            now,
        ) {
            Ok(()) => {},
            Err(e) => { return Err(e); },
        }
    } else {
        stake_user.last_update = now;
    }
    match stake_user.stake(amount) {
        Ok(()) => Ok(stake_user),
        Err(e) => Err(e),
    }
}

/// What a `Stake` comes to: the stake record to write and the transfer to
/// ask of the token ledger, or the error. The time is read from the clock,
/// the seventh of eight accounts. The transfer moves the amount from the
/// source to the reserve on the signature of the transfer authority that
/// the caller named.
pub open spec fn spec_process_stake(program_id: Address, accounts: Seq<AccountInfo>, amount: u64) -> Result<
    (StakeUser, TokenCallView),
    ProgramError,
> {
    if spec_command_time(accounts, 6, 8) is Err {
        Err(spec_command_time(accounts, 6, 8)->Err_0)
    } else {
        let now = spec_command_time(accounts, 6, 8)->Ok_0;
        match spec_stake_decision(
            program_id,
            accounts[0],
            accounts[1],
            accounts[3],
            accounts[5].key,
            spec_unpack_token_account(accounts[4].owner, accounts[4].data@, accounts[7].key),
            spec_unpack_token_account(accounts[5].owner, accounts[5].data@, accounts[7].key),
            amount,
            now,
        ) {
            Err(e) => Err(e),
            Ok(user) => match spec_transfer_call(
                TokenTransferParams {
                    source: spec_account_ref(accounts, 4),
                    destination: spec_account_ref(accounts, 5),
                    amount,
                    authority: spec_account_ref(accounts, 2),
                    authority_signer_seeds: None,
                    token_program: spec_account_ref(accounts, 7),
                },
            ) {
                Err(e) => Err(e),
                Ok(call) => Ok((user, call)),
            },
        }
    }
}

/// Stakes `amount`. On success the stake record, the second account,
/// holds the new state, and the one call returned is the transfer to make.
/// On any error the accounts are as they were.
///
/// Accounts: pool, stake user, transfer authority, owner, source, reserve,
/// clock, token program.
pub fn process_stake(program_id: &Address, accounts: &mut Vec<AccountInfo>, amount: u64) -> (r:
    Result<Vec<TokenCall>, ProgramError>)
    ensures
        single_call_outcome(
            old(accounts)@,
            final(accounts)@,
            r,
            spec_process_stake(*program_id, old(accounts)@, amount),
        ),
{
    let now = match command_time(accounts, 6, 8) {
        Ok(now) => now,
        Err(e) => { return Err(e); },
    };
    let token_program_key = accounts[7].key;
    let source_token = unpack_token_account(&accounts[4], &token_program_key);
    let destination_token = unpack_token_account(&accounts[5], &token_program_key);
    let destination_key = accounts[5].key;
    let stake_user = match stake_decision(
        program_id,
        &accounts[0],
        &accounts[1],
        &accounts[3],
        &destination_key,
        source_token,
        destination_token,
        amount,
        now,
    ) {
        Ok(user) => user,
        Err(e) => { return Err(e); },
    };
    let call = match spl_token_transfer(
        TokenTransferParams {
            source: account_ref(accounts, 4),
            destination: account_ref(accounts, 5),
            amount,
            authority: account_ref(accounts, 2),
            authority_signer_seeds: None,
            token_program: account_ref(accounts, 7),
        },
    ) {
        Ok(call) => call,
        Err(e) => { return Err(e); },
    };
    write_record(accounts, 1, stake_user);
    let mut calls: Vec<TokenCall> = Vec::new();
    calls.push(call);
    Ok(calls)
}

/// Writes a record over the bytes of the account at `index`, which hold a
/// record of that kind already.
fn write_record<T: Pack>(accounts: &mut Vec<AccountInfo>, index: usize, record: T)
    requires
        index < old(accounts)@.len(),
        old(accounts)@[index as int].data@.len() == T::LEN,
    ensures
        record_written(old(accounts)@, final(accounts)@, index as int, record.spec_pack()),
{
    let packed = T::pack(record, accounts[index].data.as_mut_slice());
    assert(packed is Ok);
}

/// The authority that the pool held by an account derives for itself: the
/// pool must be initialized, and its address and seed must derive an
/// address for the program.
pub open spec fn spec_pool_authority(program_id: Address, pool_info: AccountInfo) -> Result<
    Address,
    ProgramError,
> {
    match spec_unpack::<Pool>(pool_info.data@) {
        Err(e) => Err(e),
        Ok(pool) => derived_address(pool_info.key@, pool.bump_seed, program_id@),
    }
}

/// Derives the authority of the pool that an account holds.
pub fn pool_authority(program_id: &Address, pool_info: &AccountInfo) -> (r: Result<
    Address,
    ProgramError,
>)
    ensures
        r == spec_pool_authority(*program_id, *pool_info),
{
    match Pool::unpack(pool_info.data.as_slice()) {
        Err(e) => Err(e),
        Ok(pool) => create_program_address(&pool_info.key, pool.bump_seed, program_id),
    }
}

/// The stake record after an `Unstake` of `amount` at time `now`, or the
/// error of the first check that fails. The checks, in order: both records
/// belong to the program; the stake record is initialized; its owner
/// signed and is the owner on record; the pool is initialized; the
/// authority named is the one the pool derives; source and destination are
/// token accounts of the pool's stake mint; the source holds the amount.
/// Then the reward is brought up to date and the amount taken, which fails
/// with `InsufficientLiquidity` if more is asked than is staked.
pub open spec fn spec_unstake_decision(
    program_id: Address,
    pool_info: AccountInfo,
    user_info: AccountInfo,
    authority_key: Address,
    owner_info: AccountInfo,
    derived: Result<Address, ProgramError>,
    source_token: Result<TokenAccount, ProgramError>,
    destination_token: Result<TokenAccount, ProgramError>,
    amount: u64,
    now: i64,
) -> Result<StakeUser, ProgramError> {
    if pool_info.owner@ != program_id@ || user_info.owner@ != program_id@ {
        Err(ProgramError::Custom(CustomError::InvalidAccountOwner))
    } else if spec_unpack::<StakeUser>(user_info.data@) is Err {
        Err(spec_unpack::<StakeUser>(user_info.data@)->Err_0)
    } else if !owner_info.is_signer {
        Err(ProgramError::Custom(CustomError::InvalidSigner))
    } else if spec_unpack::<StakeUser>(user_info.data@)->Ok_0.owner@ != owner_info.key@ {
        Err(ProgramError::Custom(CustomError::InvalidStakeOwner))
    } else if spec_unpack::<Pool>(pool_info.data@) is Err {
        Err(spec_unpack::<Pool>(pool_info.data@)->Err_0)
    } else if authority_check(authority_key@, derived) is Err {
        Err(authority_check(authority_key@, derived)->Err_0)
    } else if source_token is Err {
        Err(source_token->Err_0)
    } else if destination_token is Err {
        Err(destination_token->Err_0)
    } else if source_token->Ok_0.mint@ != destination_token->Ok_0.mint@ {
        Err(ProgramError::Custom(CustomError::InvalidTokenMint))
    } else if destination_token->Ok_0.mint@ != spec_unpack::<Pool>(
        pool_info.data@,
    )->Ok_0.stake_token_mint@ {
        Err(ProgramError::Custom(CustomError::InvalidTokenMint))
    } else if source_token->Ok_0.amount < amount {
        Err(ProgramError::Custom(CustomError::InsufficientLiquidity))
    } else {
        let user = spec_unpack::<StakeUser>(user_info.data@)->Ok_0;
        let pool = spec_unpack::<Pool>(pool_info.data@)->Ok_0;
        match user.spec_update_reward_owed(pool.reward_numerator, pool.reward_denominator, now) {
            Err(e) => Err(e),
            Ok(current) => current.spec_unstake(amount),
        }
    }
}

/// Decides an `Unstake`: see `spec_unstake_decision`. The derived
/// authority and the two token accounts are handed in as they were
/// computed and read.
pub fn unstake_decision(
    program_id: &Address,
    pool_info: &AccountInfo,
    user_info: &AccountInfo,
    authority_key: &Address,
    owner_info: &AccountInfo,
    derived: Result<Address, ProgramError>,
    source_token: Result<TokenAccount, ProgramError>,
    destination_token: Result<TokenAccount, ProgramError>,
    amount: u64,
    now: i64,
) -> (r: Result<StakeUser, ProgramError>)
    ensures
        r == spec_unstake_decision(
            *program_id,
            *pool_info,
            *user_info,
            *authority_key,
            *owner_info,
            derived,
            source_token,
            destination_token,
            amount,
            now,
        ),
{
    if pool_info.owner != *program_id || user_info.owner != *program_id {
        return Err(ProgramError::Custom(CustomError::InvalidAccountOwner));
    }
    let mut stake_user = match StakeUser::unpack(user_info.data.as_slice()) {
        Ok(user) => user,
        Err(e) => { return Err(e); },
    };
    if !owner_info.is_signer {
        return Err(ProgramError::Custom(CustomError::InvalidSigner));
    }
    if stake_user.owner != owner_info.key {
        return Err(ProgramError::Custom(CustomError::InvalidStakeOwner));
    }
    let stake_pool = match Pool::unpack(pool_info.data.as_slice()) {
        Ok(pool) => pool,
        Err(e) => { return Err(e); },
    };
    match check_authority(authority_key, derived) {
        Ok(()) => {},
        Err(e) => { return Err(e); },
    }
    let source = match source_token {
        Ok(token) => token,
        Err(e) => { return Err(e); },
    };
    let destination = match destination_token {
        Ok(token) => token,
        Err(e) => { return Err(e); },
    };
    if source.mint != destination.mint {
        return Err(ProgramError::Custom(CustomError::InvalidTokenMint));
    }
    if destination.mint != stake_pool.stake_token_mint {
        return Err(ProgramError::Custom(CustomError::InvalidTokenMint));
    }
    if source.amount < amount {
        return Err(ProgramError::Custom(CustomError::InsufficientLiquidity));
    }
    match stake_user.update_reward_owed(stake_pool.reward_numerator, stake_pool.reward_denominator, now) {
        Ok(()) => {},
        Err(e) => { return Err(e); },
    }
    match stake_user.unstake(amount) {
        Ok(()) => Ok(stake_user),
        Err(e) => Err(e),
    }
}

/// The seeds with which the pool held by an account signs.
pub open spec fn spec_authority_seeds(pool_info: AccountInfo) -> Option<AuthoritySeeds> {
    match spec_unpack::<Pool>(pool_info.data@) {
        Err(_) => None,
        Ok(pool) => Some(AuthoritySeeds { pool: pool_info.key, bump_seed: pool.bump_seed }),
    }
}

/// The seeds with which the pool held by an account signs, if the account
/// holds an initialized pool.
pub fn authority_seeds(pool_info: &AccountInfo) -> (r: Option<AuthoritySeeds>)
    ensures
        r == spec_authority_seeds(*pool_info),
{
    match Pool::unpack(pool_info.data.as_slice()) {
        Err(_) => None,
        Ok(pool) => Some(AuthoritySeeds { pool: pool_info.key, bump_seed: pool.bump_seed }),
    }
}

/// What an `Unstake` comes to: the stake record to write and the transfer
/// to ask of the token ledger, or the error. The time is read from the
/// clock, the seventh of eight accounts. The transfer moves the amount
/// from the reserve to the destination and is signed by the pool as its
/// derived authority.
pub open spec fn spec_process_unstake(
    program_id: Address,
    accounts: Seq<AccountInfo>,
    amount: u64,
) -> Result<(StakeUser, TokenCallView), ProgramError> {
    if spec_command_time(accounts, 6, 8) is Err {
        Err(spec_command_time(accounts, 6, 8)->Err_0)
    } else {
        let now = spec_command_time(accounts, 6, 8)->Ok_0;
        match spec_unstake_decision(
            program_id,
            accounts[0],
            accounts[1],
            accounts[2].key,
            accounts[3],
            spec_pool_authority(program_id, accounts[0]),
            spec_unpack_token_account(accounts[4].owner, accounts[4].data@, accounts[7].key),
            spec_unpack_token_account(accounts[5].owner, accounts[5].data@, accounts[7].key),
            amount,
            now,
        ) {
            Err(e) => Err(e),
            Ok(user) => match spec_transfer_call(
                TokenTransferParams {
                    source: spec_account_ref(accounts, 4),
                    destination: spec_account_ref(accounts, 5),
                    amount,
                    authority: spec_account_ref(accounts, 2),
                    authority_signer_seeds: spec_authority_seeds(accounts[0]),
                    token_program: spec_account_ref(accounts, 7),
                },
            ) {
                Err(e) => Err(e),
                Ok(call) => Ok((user, call)),
            },
        }
    }
}

/// Unstakes `amount`. On success the stake record, the second account,
/// holds the new state, and the one call returned is the transfer to make,
/// signed by the pool. On any error the accounts are as they were. It
/// succeeds only for the authority that the pool derives.
///
/// Accounts: pool, stake user, authority, owner, reserve, destination,
/// clock, token program.
pub fn process_unstake(program_id: &Address, accounts: &mut Vec<AccountInfo>, amount: u64) -> (r:
    Result<Vec<TokenCall>, ProgramError>)
    ensures
        single_call_outcome(
            old(accounts)@,
            final(accounts)@,
            r,
            spec_process_unstake(*program_id, old(accounts)@, amount),
        ),
        r matches Ok(calls) ==> calls@[0].signer_seeds is Some,
        r is Ok ==> (spec_pool_authority(*program_id, old(accounts)@[0]) matches Ok(authority)
            && authority@ == old(accounts)@[2].key@),
{
    let now = match command_time(accounts, 6, 8) {
        Ok(now) => now,
        Err(e) => { return Err(e); },
    };
    let token_program_key = accounts[7].key;
    let authority_key = accounts[2].key;
    let derived = pool_authority(program_id, &accounts[0]);
    let source_token = unpack_token_account(&accounts[4], &token_program_key);
    let destination_token = unpack_token_account(&accounts[5], &token_program_key);
    let stake_user = match unstake_decision(
        program_id,
        &accounts[0],
        &accounts[1],
        &authority_key,
        &accounts[3],
        derived,
        source_token,
        destination_token,
        amount,
        now,
    ) {
        Ok(user) => user,
        Err(e) => { return Err(e); },
    };
    let call = match spl_token_transfer(
        TokenTransferParams {
            source: account_ref(accounts, 4),
            destination: account_ref(accounts, 5),
            amount,
            authority: account_ref(accounts, 2),
            authority_signer_seeds: authority_seeds(&accounts[0]),
            token_program: account_ref(accounts, 7),
        },
    ) {
        Ok(call) => call,
        Err(e) => { return Err(e); },
    };
    write_record(accounts, 1, stake_user);
    let mut calls: Vec<TokenCall> = Vec::new();
    calls.push(call);
    Ok(calls)
}

/// The stake record after a `Claim` at time `now` and the reward claimed,
/// or the error of the first check that fails. The checks, in order: both
/// records belong to the program; the stake record is initialized, is in
/// this pool and of this owner, who signed; the pool is initialized; the
/// receiving account is a token account; the mint named is the pool's
/// reward mint; the receiving account holds tokens of the reward mint; the
/// authority named is the one the pool derives. Then the reward is brought
/// up to date and claimed, which fails with `InsufficientClaimAmount` if
/// none is owed.
pub open spec fn spec_claim_decision(
    program_id: Address,
    pool_info: AccountInfo,
    user_info: AccountInfo,
    owner_info: AccountInfo,
    authority_key: Address,
    reward_mint_key: Address,
    derived: Result<Address, ProgramError>,
    reward_token: Result<TokenAccount, ProgramError>,
    now: i64,
) -> Result<(StakeUser, u64), ProgramError> {
    if pool_info.owner@ != program_id@ || user_info.owner@ != program_id@ {
        Err(ProgramError::Custom(CustomError::InvalidAccountOwner))
    } else if spec_unpack::<StakeUser>(user_info.data@) is Err {
        Err(spec_unpack::<StakeUser>(user_info.data@)->Err_0)
    } else if spec_unpack::<StakeUser>(user_info.data@)->Ok_0.pool_pubkey@ != pool_info.key@ {
        Err(ProgramError::Custom(CustomError::InvalidStakeOwner))
    } else if spec_unpack::<StakeUser>(user_info.data@)->Ok_0.owner@ != owner_info.key@ {
        Err(ProgramError::Custom(CustomError::InvalidStakeOwner))
    } else if !owner_info.is_signer {
        Err(ProgramError::Custom(CustomError::InvalidSigner))
    } else if spec_unpack::<Pool>(pool_info.data@) is Err {
        Err(spec_unpack::<Pool>(pool_info.data@)->Err_0)
    } else if reward_token is Err {
        Err(reward_token->Err_0)
    } else if spec_unpack::<Pool>(pool_info.data@)->Ok_0.reward_mint@ != reward_mint_key@ {
        Err(ProgramError::Custom(CustomError::InvalidTokenMint))
    } else if reward_token->Ok_0.mint@ != reward_mint_key@ {
        Err(ProgramError::Custom(CustomError::InvalidTokenMint))
    } else if authority_check(authority_key@, derived) is Err {
        Err(authority_check(authority_key@, derived)->Err_0)
    } else {
        let user = spec_unpack::<StakeUser>(user_info.data@)->Ok_0;
        let pool = spec_unpack::<Pool>(pool_info.data@)->Ok_0;
        match user.spec_update_reward_owed(pool.reward_numerator, pool.reward_denominator, now) {
            Err(e) => Err(e),
            Ok(current) => current.spec_claim(),
        }
    }
}

/// Decides a `Claim`: see `spec_claim_decision`. The derived authority and
/// the receiving token account are handed in as they were computed and
/// read.
pub fn claim_decision(
    program_id: &Address,
    pool_info: &AccountInfo,
    user_info: &AccountInfo,
    owner_info: &AccountInfo,
    authority_key: &Address,
    reward_mint_key: &Address,
    derived: Result<Address, ProgramError>,
    reward_token: Result<TokenAccount, ProgramError>,
    now: i64,
) -> (r: Result<(StakeUser, u64), ProgramError>)
    ensures
        r == spec_claim_decision(
            *program_id,
            *pool_info,
            *user_info,
            *owner_info,
            *authority_key,
            *reward_mint_key,
            derived,
            reward_token,
            now,
        ),
{
    if pool_info.owner != *program_id || user_info.owner != *program_id {
        return Err(ProgramError::Custom(CustomError::InvalidAccountOwner));
    }
    let mut stake_user = match StakeUser::unpack(user_info.data.as_slice()) {
        Ok(user) => user,
        Err(e) => { return Err(e); },
    };
    if stake_user.pool_pubkey != pool_info.key {
        return Err(ProgramError::Custom(CustomError::InvalidStakeOwner));
    }
    if stake_user.owner != owner_info.key {
        return Err(ProgramError::Custom(CustomError::InvalidStakeOwner));
    }
    if !owner_info.is_signer {
        return Err(ProgramError::Custom(CustomError::InvalidSigner));
    }
    let stake_pool = match Pool::unpack(pool_info.data.as_slice()) {
        Ok(pool) => pool,
        Err(e) => { return Err(e); },
    };
    let reward = match reward_token {
        Ok(token) => token,
        Err(e) => { return Err(e); },
    };
    if stake_pool.reward_mint != *reward_mint_key {
        return Err(ProgramError::Custom(CustomError::InvalidTokenMint));
    }
    if reward.mint != *reward_mint_key {
        return Err(ProgramError::Custom(CustomError::InvalidTokenMint));
    }
    match check_authority(authority_key, derived) {
        Ok(()) => {},
        Err(e) => { return Err(e); },
    }
    match stake_user.update_reward_owed(stake_pool.reward_numerator, stake_pool.reward_denominator, now) {
        Ok(()) => {},
        Err(e) => { return Err(e); },
    }
    match stake_user.claim() {
        Ok(amount) => Ok((stake_user, amount)),
        Err(e) => Err(e),
    }
}

/// What a `Claim` comes to: the stake record to write and the minting to
/// ask of the token ledger, or the error. The time is read from the clock,
/// the seventh of eight accounts. The minting pays the reward claimed to
/// the receiving account and is signed by the pool as its derived
/// authority.
pub open spec fn spec_process_claim(program_id: Address, accounts: Seq<AccountInfo>) -> Result<
    (StakeUser, TokenCallView),
    ProgramError,
> {
    if spec_command_time(accounts, 6, 8) is Err {
        Err(spec_command_time(accounts, 6, 8)->Err_0)
    } else {
        let now = spec_command_time(accounts, 6, 8)->Ok_0;
        match spec_claim_decision(
            program_id,
            accounts[0],
            accounts[1],
            accounts[2],
            accounts[3].key,
            accounts[4].key,
            spec_pool_authority(program_id, accounts[0]),
            spec_unpack_token_account(accounts[5].owner, accounts[5].data@, accounts[7].key),
            now,
        ) {
            Err(e) => Err(e),
            Ok((user, amount)) => match spec_mint_to_call(
                TokenMintToParams {
                    mint: spec_account_ref(accounts, 4),
                    destination: spec_account_ref(accounts, 5),
                    amount,
                    authority: spec_account_ref(accounts, 3),
                    authority_signer_seeds: spec_authority_seeds(accounts[0]),
                    token_program: spec_account_ref(accounts, 7),
                },
            ) {
                Err(e) => Err(e),
                Ok(call) => Ok((user, call)),
            },
        }
    }
}

/// Brings the reward up to date and claims it. On success the stake
/// record, the second account, owes nothing any more, and the one call
/// returned is the minting to make, signed by the pool. On any error the
/// accounts are as they were. It succeeds only for the authority that the
/// pool derives.
///
/// Accounts: pool, stake user, owner, authority, reward mint, receiving
/// token account, clock, token program.
pub fn process_claim(program_id: &Address, accounts: &mut Vec<AccountInfo>) -> (r: Result<
    Vec<TokenCall>,
    ProgramError,
>)
    ensures
        single_call_outcome(
            old(accounts)@,
            final(accounts)@,
            r,
            spec_process_claim(*program_id, old(accounts)@),
        ),
        r matches Ok(calls) ==> calls@[0].signer_seeds is Some,
        spec_process_claim(*program_id, old(accounts)@) matches Ok((user, call))
            ==> user.reward_owed == 0,
        r is Ok ==> (spec_pool_authority(*program_id, old(accounts)@[0]) matches Ok(authority)
            && authority@ == old(accounts)@[3].key@),
{
    let now = match command_time(accounts, 6, 8) {
        Ok(now) => now,
        Err(e) => { return Err(e); },
    };
    let token_program_key = accounts[7].key;
    let authority_key = accounts[3].key;
    let reward_mint_key = accounts[4].key;
    let derived = pool_authority(program_id, &accounts[0]);
    let reward_token = unpack_token_account(&accounts[5], &token_program_key);
    let (stake_user, amount) = match claim_decision(
        program_id,
        &accounts[0],
        &accounts[1],
        &accounts[2],
        &authority_key,
        &reward_mint_key,
        derived,
        reward_token,
        now,
    ) {
        Ok(pair) => pair,
        Err(e) => { return Err(e); },
    };
    let call = match spl_token_mint_to(
        TokenMintToParams {
            mint: account_ref(accounts, 4),
            destination: account_ref(accounts, 5),
            amount,
            authority: account_ref(accounts, 3),
            authority_signer_seeds: authority_seeds(&accounts[0]),
            token_program: account_ref(accounts, 7),
        },
    ) {
        Ok(call) => call,
        Err(e) => { return Err(e); },
    };
    write_record(accounts, 1, stake_user);
    let mut calls: Vec<TokenCall> = Vec::new();
    calls.push(call);
    Ok(calls)
}

/// The pool record that a `CreatePool` writes, or the error of the first
/// check that fails. The checks, in order: the pool's account belongs to
/// the program; its balance exempts it from rent; it holds a pool record
/// that was never initialized; the authority named is the one that the
/// pool's address and the seed derive.
pub open spec fn spec_create_pool_decision(
    program_id: Address,
    pool_info: AccountInfo,
    authority_key: Address,
    stake_mint_key: Address,
    reserve_key: Address,
    reward_mint_key: Address,
    init_data: InitData,
    rent_minimum: u64,
    derived: Result<Address, ProgramError>,
) -> Result<Pool, ProgramError> {
    if pool_info.owner@ != program_id@ {
        Err(ProgramError::Custom(CustomError::InvalidAccountOwner))
    } else if pool_info.lamports < rent_minimum {
        Err(ProgramError::Custom(CustomError::NotRentExempt))
    } else if spec_assert_uninitialized::<Pool>(pool_info.data@) is Err {
        Err(spec_assert_uninitialized::<Pool>(pool_info.data@)->Err_0)
    } else if authority_check(authority_key@, derived) is Err {
        Err(authority_check(authority_key@, derived)->Err_0)
    } else {
        Ok(
            Pool {
                is_initialized: true,
                bump_seed: init_data.bump_seed,
                stake_token_mint: stake_mint_key,
                reserved: reserve_key,
                reward_mint: reward_mint_key,
                reward_numerator: init_data.reward_numerator,
                reward_denominator: init_data.reward_denominator,
            },
        )
    }
}

/// Decides a `CreatePool`: see `spec_create_pool_decision`. The derived
/// authority is handed in as it was computed.
pub fn create_pool_decision(
    program_id: &Address,
    pool_info: &AccountInfo,
    authority_key: &Address,
    stake_mint_key: &Address,
    reserve_key: &Address,
    reward_mint_key: &Address,
    init_data: &InitData,
    rent_minimum: u64,
    derived: Result<Address, ProgramError>,
) -> (r: Result<Pool, ProgramError>)
    ensures
        r == spec_create_pool_decision(
            *program_id,
            *pool_info,
            *authority_key,
            *stake_mint_key,
            *reserve_key,
            *reward_mint_key,
            *init_data,
            rent_minimum,
            derived,
        ),
{
    if pool_info.owner != *program_id {
        return Err(ProgramError::Custom(CustomError::InvalidAccountOwner));
    }
    match assert_rent_exempt(rent_minimum, pool_info) {
        Ok(()) => {},
        Err(e) => { return Err(e); },
    }
    let mut stake_pool = match assert_uninitialized::<Pool>(pool_info) {
        Ok(pool) => pool,
        Err(e) => { return Err(e); },
    };
    match check_authority(authority_key, derived) {
        Ok(()) => {},
        Err(e) => { return Err(e); },
    }
    stake_pool.is_initialized = true;
    stake_pool.bump_seed = init_data.bump_seed;
    stake_pool.stake_token_mint = *stake_mint_key;
    stake_pool.reserved = *reserve_key;
    stake_pool.reward_mint = *reward_mint_key;
    stake_pool.reward_numerator = init_data.reward_numerator;
    stake_pool.reward_denominator = init_data.reward_denominator;
    Ok(stake_pool)
}

/// What a `CreatePool` comes to: the pool record to write and the two
/// calls to ask of the token ledger, or the error. The first call
/// initializes the reserve account for the stake mint, the second the
/// reward mint with nine decimals; both make the derived authority the
/// owner.
pub open spec fn spec_process_create_stake_pool(
    program_id: Address,
    accounts: Seq<AccountInfo>,
    init_data: InitData,
    rent_minimum: u64,
) -> Result<(Pool, TokenCallView, TokenCallView), ProgramError> {
    if accounts.len() < 7 {
        Err(ProgramError::NotEnoughAccountKeys)
    } else {
        match spec_create_pool_decision(
            program_id,
            accounts[0],
            accounts[1].key,
            accounts[2].key,
            accounts[3].key,
            accounts[4].key,
            init_data,
            rent_minimum,
            derived_address(accounts[0].key@, init_data.bump_seed, program_id@),
        ) {
            Err(e) => Err(e),
            Ok(pool) => match spec_init_account_call(
                TokenInitializeAccountParams {
                    account: spec_account_ref(accounts, 3),
                    mint: spec_account_ref(accounts, 2),
                    owner: spec_account_ref(accounts, 1),
                    rent: spec_account_ref(accounts, 5),
                    token_program: spec_account_ref(accounts, 6),
                },
            ) {
                Err(e) => Err(e),
                Ok(init_account) => match spec_init_mint_call(
                    TokenInitializeMintParams {
                        mint: spec_account_ref(accounts, 4),
                        rent: spec_account_ref(accounts, 5),
                        authority: accounts[1].key,
                        decimals: REWARD_DECIMALS,
                        token_program: spec_account_ref(accounts, 6),
                    },
                ) {
                    Err(e) => Err(e),
                    Ok(init_mint) => Ok((pool, init_account, init_mint)),
                },
            },
        }
    }
}

/// Whether a command that writes a pool and asks for two calls ended as
/// `expected` says: on an error with that error and the accounts as they
/// were, else with the pool written to the first account and the two calls
/// returned in order.
pub open spec fn pool_outcome(
    before: Seq<AccountInfo>,
    after: Seq<AccountInfo>,
    r: Result<Vec<TokenCall>, ProgramError>,
    expected: Result<(Pool, TokenCallView, TokenCallView), ProgramError>,
) -> bool {
    match expected {
        Err(e) => r == Err::<Vec<TokenCall>, ProgramError>(e) && after == before,
        Ok((pool, first, second)) => {
            &&& r matches Ok(calls)
            &&& calls@.len() == 2
            &&& calls@[0]@ == first
            &&& calls@[1]@ == second
            &&& record_written(before, after, 0, pool.spec_pack())
        },
    }
}

/// Whether a command that writes a stake record and asks for one call
/// ended as `expected` says: on an error with that error and the accounts
/// as they were, else with the record written to the second account and
/// the call returned.
pub open spec fn single_call_outcome(
    before: Seq<AccountInfo>,
    after: Seq<AccountInfo>,
    r: Result<Vec<TokenCall>, ProgramError>,
    expected: Result<(StakeUser, TokenCallView), ProgramError>,
) -> bool {
    match expected {
        Err(e) => r == Err::<Vec<TokenCall>, ProgramError>(e) && after == before,
        Ok((user, call)) => {
            &&& r matches Ok(calls)
            &&& calls@.len() == 1
            &&& calls@[0]@ == call
            &&& record_written(before, after, 1, user.spec_pack())
        },
    }
}

/// Whether a command that writes a stake record and asks for no call ended
/// as `expected` says.
pub open spec fn no_call_outcome(
    before: Seq<AccountInfo>,
    after: Seq<AccountInfo>,
    r: Result<Vec<TokenCall>, ProgramError>,
    expected: Result<StakeUser, ProgramError>,
) -> bool {
    match expected {
        Err(e) => r == Err::<Vec<TokenCall>, ProgramError>(e) && after == before,
        Ok(user) => {
            &&& r matches Ok(calls)
            &&& calls@.len() == 0
            &&& record_written(before, after, 1, user.spec_pack())
        },
    }
}

/// Creates a pool. On success the pool's account, the first, holds the new
/// record, and the two calls returned initialize the reserve account and
/// the reward mint. On any error the accounts are as they were.
///
/// Accounts: pool, authority, stake mint, reserve, reward mint, rent, token
/// program. `rent_minimum` is the balance that exempts an account of the
/// pool account's size from rent.
pub fn process_create_stake_pool(
    program_id: &Address,
    accounts: &mut Vec<AccountInfo>,
    init_data: InitData,
    rent_minimum: u64,
) -> (r: Result<Vec<TokenCall>, ProgramError>)
    ensures
        pool_outcome(
            old(accounts)@,
            final(accounts)@,
            r,
            spec_process_create_stake_pool(*program_id, old(accounts)@, init_data, rent_minimum),
        ),
        r is Ok ==> (derived_address(old(accounts)@[0].key@, init_data.bump_seed, program_id@)
            matches Ok(authority) && authority@ == old(accounts)@[1].key@),
{
    if accounts.len() < 7 {
        return Err(ProgramError::NotEnoughAccountKeys);
    }
    let authority_key = accounts[1].key;
    let stake_mint_key = accounts[2].key;
    let reserve_key = accounts[3].key;
    let reward_mint_key = accounts[4].key;
    let derived = create_program_address(&accounts[0].key, init_data.bump_seed, program_id);
    let stake_pool = match create_pool_decision(
        program_id,
        &accounts[0],
        &authority_key,
        &stake_mint_key,
        &reserve_key,
        &reward_mint_key,
        &init_data,
        rent_minimum,
        derived,
    ) {
        Ok(pool) => pool,
        Err(e) => { return Err(e); },
    };
    let init_account = match spl_token_init_account(
        TokenInitializeAccountParams {
            account: account_ref(accounts, 3),
            mint: account_ref(accounts, 2),
            owner: account_ref(accounts, 1),
            rent: account_ref(accounts, 5),
            token_program: account_ref(accounts, 6),
        },
    ) {
        Ok(call) => call,
        Err(e) => { return Err(e); },
    };
    let init_mint = match spl_token_init_mint(
        TokenInitializeMintParams {
            mint: account_ref(accounts, 4),
            rent: account_ref(accounts, 5),
            authority: authority_key,
            decimals: REWARD_DECIMALS,
            token_program: account_ref(accounts, 6),
        },
    ) {
        Ok(call) => call,
        Err(e) => { return Err(e); },
    };
    write_record(accounts, 0, stake_pool);
    let mut calls: Vec<TokenCall> = Vec::new();
    calls.push(init_account);
    calls.push(init_mint);
    Ok(calls)
}

/// The stake record that a `CreateStakeUser` writes, or the error of the
/// first check that fails. The checks, in order: both accounts belong to
/// the program; the stake user's balance exempts it from rent; it holds a
/// stake record that was never initialized; the owner signed. The new
/// record is bound to the pool and the owner, with nothing staked and
/// nothing owed.
pub open spec fn spec_create_user_decision(
    program_id: Address,
    pool_info: AccountInfo,
    user_info: AccountInfo,
    owner_info: AccountInfo,
    rent_minimum: u64,
) -> Result<StakeUser, ProgramError> {
    if pool_info.owner@ != program_id@ || user_info.owner@ != program_id@ {
        Err(ProgramError::Custom(CustomError::InvalidAccountOwner))
    } else if user_info.lamports < rent_minimum {
        Err(ProgramError::Custom(CustomError::NotRentExempt))
    } else if spec_assert_uninitialized::<StakeUser>(user_info.data@) is Err {
        Err(spec_assert_uninitialized::<StakeUser>(user_info.data@)->Err_0)
    } else if !owner_info.is_signer {
        Err(ProgramError::Custom(CustomError::InvalidSigner))
    } else {
        Ok(
            StakeUser {
                stake_amount: 0,
                reward_owed: 0,
                ..spec_assert_uninitialized::<StakeUser>(user_info.data@)->Ok_0.spec_init(
                    InitStakeUserParams { pool_pubkey: pool_info.key, owner: owner_info.key },
                )
            },
        )
    }
}

/// Decides a `CreateStakeUser`: see `spec_create_user_decision`.
pub fn create_user_decision(
    program_id: &Address,
    pool_info: &AccountInfo,
    user_info: &AccountInfo,
    owner_info: &AccountInfo,
    rent_minimum: u64,
) -> (r: Result<StakeUser, ProgramError>)
    ensures
        r == spec_create_user_decision(
            *program_id,
            *pool_info,
            *user_info,
            *owner_info,
            rent_minimum,
        ),
{
    if pool_info.owner != *program_id || user_info.owner != *program_id {
        return Err(ProgramError::Custom(CustomError::InvalidAccountOwner));
    }
    match assert_rent_exempt(rent_minimum, user_info) {
        Ok(()) => {},
        Err(e) => { return Err(e); },
    }
    let mut stake_user = match assert_uninitialized::<StakeUser>(user_info) {
        Ok(user) => user,
        Err(e) => { return Err(e); },
    };
    if !owner_info.is_signer {
        return Err(ProgramError::Custom(CustomError::InvalidSigner));
    }
    stake_user.init(InitStakeUserParams { pool_pubkey: pool_info.key, owner: owner_info.key });
    stake_user.stake_amount = 0;
    stake_user.reward_owed = 0;
    Ok(stake_user)
}

/// What a `CreateStakeUser` comes to: the stake record to write, or the
/// error.
pub open spec fn spec_process_create_stake_user(
    program_id: Address,
    accounts: Seq<AccountInfo>,
    rent_minimum: u64,
) -> Result<StakeUser, ProgramError> {
    if accounts.len() < 4 {
        Err(ProgramError::NotEnoughAccountKeys)
    } else {
        spec_create_user_decision(program_id, accounts[0], accounts[1], accounts[2], rent_minimum)
    }
}

/// Creates a stake user. On success the stake user's account, the second,
/// holds the new record, and nothing is asked of the token ledger. On any
/// error the accounts are as they were.
///
/// Accounts: pool, stake user, owner, rent. `rent_minimum` is the balance
/// that exempts an account of the stake user account's size from rent.
pub fn process_create_stake_user(
    program_id: &Address,
    accounts: &mut Vec<AccountInfo>,
    rent_minimum: u64,
) -> (r: Result<Vec<TokenCall>, ProgramError>)
    ensures
        no_call_outcome(
            old(accounts)@,
            final(accounts)@,
            r,
            spec_process_create_stake_user(*program_id, old(accounts)@, rent_minimum),
        ),
{
    if accounts.len() < 4 {
        return Err(ProgramError::NotEnoughAccountKeys);
    }
    let stake_user = match create_user_decision(
        program_id,
        &accounts[0],
        &accounts[1],
        &accounts[2],
        rent_minimum,
    ) {
        Ok(user) => user,
        Err(e) => { return Err(e); },
    };
    write_record(accounts, 1, stake_user);
    Ok(Vec::new())
}

/// What a `Refresh` makes of one account: nothing, where the account does
/// not belong to the program, holds no initialized stake record, is in
/// another pool or has nothing staked; else the stake record brought up to
/// date, or the error of the accrual.
pub open spec fn spec_refresh_record(
    program_id: Address,
    pool_key: Address,
    pool: Pool,
    account: AccountInfo,
    now: i64,
) -> Result<Option<StakeUser>, ProgramError> {
    if account.owner@ != program_id@ {
        Ok(None)
    } else {
        match spec_unpack::<StakeUser>(account.data@) {
            Err(_) => Ok(None),
            Ok(user) => if user.pool_pubkey@ != pool_key@ || user.stake_amount == 0 {
                Ok(None)
            } else {
                match user.spec_update_reward_owed(
                    pool.reward_numerator,
                    pool.reward_denominator,
                    now,
                ) {
                    Err(e) => Err(e),
                    Ok(current) => Ok(Some(current)),
                }
            },
        }
    }
}

/// Decides what a `Refresh` makes of one account: see
/// `spec_refresh_record`.
pub fn refresh_record(
    program_id: &Address,
    pool_key: &Address,
    pool: &Pool,
    account: &AccountInfo,
    now: i64,
) -> (r: Result<Option<StakeUser>, ProgramError>)
    ensures
        r == spec_refresh_record(*program_id, *pool_key, *pool, *account, now),
        r matches Ok(Some(_)) ==> account.data@.len() == StakeUser::LEN,
{
    if account.owner != *program_id {
        return Ok(None);
    }
    let mut stake_user = match StakeUser::unpack(account.data.as_slice()) {
        Ok(user) => user,
        Err(_) => { return Ok(None); },
    };
    if stake_user.pool_pubkey != *pool_key {
        return Ok(None);
    }
    if stake_user.stake_amount == 0 {
        return Ok(None);
    }
    match stake_user.update_reward_owed(pool.reward_numerator, pool.reward_denominator, now) {
        Ok(()) => Ok(Some(stake_user)),
        Err(e) => Err(e),
    }
}

/// Whether `after` is what a `Refresh` makes of the account `before`.
pub open spec fn refreshed(
    program_id: Address,
    pool_key: Address,
    pool: Pool,
    before: AccountInfo,
    after: AccountInfo,
    now: i64,
) -> bool {
    match spec_refresh_record(program_id, pool_key, pool, before, now) {
        Err(_) => false,
        Ok(None) => after == before,
        Ok(Some(user)) => {
            &&& after.data@ == user.spec_pack()
            &&& after.key == before.key
            &&& after.is_signer == before.is_signer
            &&& after.lamports == before.lamports
            &&& after.owner == before.owner
        },
    }
}

/// The place of the first account, from `from` on, whose accrual fails, or
/// the number of accounts if none does.
pub open spec fn spec_refresh_stop(
    program_id: Address,
    pool_key: Address,
    pool: Pool,
    accounts: Seq<AccountInfo>,
    now: i64,
    from: int,
) -> int
    decreases accounts.len() - from,
{
    if from >= accounts.len() {
        accounts.len() as int
    } else if spec_refresh_record(program_id, pool_key, pool, accounts[from], now) is Err {
        from
    } else {
        spec_refresh_stop(program_id, pool_key, pool, accounts, now, from + 1)
    }
}

/// The pool that a `Refresh` works for and the time it runs at, or why it
/// cannot start: the pool's account is the first, the clock the second;
/// the pool's account belongs to the program and holds an initialized pool.
pub open spec fn spec_refresh_pool(program_id: Address, accounts: Seq<AccountInfo>) -> Result<
    (Pool, i64),
    ProgramError,
> {
    if spec_command_time(accounts, 1, 2) is Err {
        Err(spec_command_time(accounts, 1, 2)->Err_0)
    } else if accounts[0].owner@ != program_id@ {
        Err(ProgramError::Custom(CustomError::InvalidAccountOwner))
    } else {
        match spec_unpack::<Pool>(accounts[0].data@) {
            Err(e) => Err(e),
            Ok(pool) => Ok((pool, spec_command_time(accounts, 1, 2)->Ok_0)),
        }
    }
}

/// Whether a `Refresh` ended as it must. If it cannot start, it fails and
/// the accounts are as they were. Else the accounts from the third on are
/// taken in order, each is left alone or brought up to date, and the first
/// accrual that fails ends the command with its error: the accounts before
/// it keep what was written, that account and those after it are as they
/// were.
pub open spec fn refresh_outcome(
    program_id: Address,
    before: Seq<AccountInfo>,
    after: Seq<AccountInfo>,
    r: Result<Vec<TokenCall>, ProgramError>,
) -> bool {
    match spec_refresh_pool(program_id, before) {
        Err(e) => r == Err::<Vec<TokenCall>, ProgramError>(e) && after == before,
        Ok((pool, now)) => {
            let stop = spec_refresh_stop(program_id, before[0].key, pool, before, now, 2);
            &&& after.len() == before.len()
            &&& 2 <= stop <= before.len()
            &&& forall|j: int|
                2 <= j < stop ==> refreshed(
                    program_id,
                    before[0].key,
                    pool,
                    before[j],
                    #[trigger] after[j],
                    now,
                )
            &&& forall|j: int|
                0 <= j < before.len() && !(2 <= j < stop) ==> #[trigger] after[j] == before[j]
            &&& stop == before.len() ==> (r matches Ok(calls) && calls@.len() == 0)
            &&& stop < before.len() ==> (spec_refresh_record(
                program_id,
                before[0].key,
                pool,
                before[stop],
                now,
            ) matches Err(e) && r == Err::<Vec<TokenCall>, ProgramError>(e))
        },
    }
}

/// Brings the stake users handed in up to date. Accounts that are not
/// stake records of this pool are passed over. The first accrual that
/// fails ends the command; what was written before it stays written.
///
/// Accounts: pool, clock, then any number of stake users.
pub fn process_refresh(program_id: &Address, accounts: &mut Vec<AccountInfo>) -> (r: Result<
    Vec<TokenCall>,
    ProgramError,
>)
    ensures
        refresh_outcome(*program_id, old(accounts)@, final(accounts)@, r),
{
    let now = match command_time(accounts, 1, 2) {
        Ok(now) => now,
        Err(e) => { return Err(e); },
    };
    if accounts[0].owner != *program_id {
        return Err(ProgramError::Custom(CustomError::InvalidAccountOwner));
    }
    let stake_pool = match Pool::unpack(accounts[0].data.as_slice()) {
        Ok(pool) => pool,
        Err(e) => { return Err(e); },
    };
    let pool_key = accounts[0].key;
    let n: usize = accounts.len();
    let mut i: usize = 2;
    while i < n
        invariant
            2 <= i <= n,
            n == old(accounts)@.len(),
            accounts@.len() == n,
            pool_key == old(accounts)@[0].key,
            spec_refresh_pool(*program_id, old(accounts)@) == Ok::<(Pool, i64), ProgramError>(
                (stake_pool, now),
            ),
            spec_refresh_stop(*program_id, pool_key, stake_pool, old(accounts)@, now, 2)
                == spec_refresh_stop(*program_id, pool_key, stake_pool, old(accounts)@, now, i as int),
            forall|j: int|
                2 <= j < i ==> refreshed(
                    *program_id,
                    pool_key,
                    stake_pool,
                    old(accounts)@[j],
                    #[trigger] accounts@[j],
                    now,
                ),
            forall|j: int|
                0 <= j < n && !(2 <= j < i) ==> #[trigger] accounts@[j] == old(accounts)@[j],
        decreases n - i,
    {
        match refresh_record(program_id, &pool_key, &stake_pool, &accounts[i], now) {
            Err(e) => {
                return Err(e);
            },
            Ok(None) => {},
            Ok(Some(stake_user)) => {
                write_record(accounts, i, stake_user);
            },
        }
        i = i + 1;
    }
    Ok(Vec::new())
}

/// Whether a command given as bytes ended as it must: a command that does
/// not decode fails with the decoding's error and changes nothing, and
/// every other command ends as its handler says.
pub open spec fn process_outcome(
    program_id: Address,
    before: Seq<AccountInfo>,
    after: Seq<AccountInfo>,
    input: Seq<u8>,
    rent_exempt_minimum: u64,
    r: Result<Vec<TokenCall>, ProgramError>,
) -> bool {
    match InstructionType::spec_unpack(input) {
        Err(e) => r == Err::<Vec<TokenCall>, ProgramError>(e) && after == before,
        Ok(InstructionType::CreatePool(init_data)) => pool_outcome(
            before,
            after,
            r,
            spec_process_create_stake_pool(program_id, before, init_data, rent_exempt_minimum),
        ),
        Ok(InstructionType::CreateStakeUser) => no_call_outcome(
            before,
            after,
            r,
            spec_process_create_stake_user(program_id, before, rent_exempt_minimum),
        ),
        Ok(InstructionType::Stake(data)) => single_call_outcome(
            before,
            after,
            r,
            spec_process_stake(program_id, before, data.amount),
        ),
        Ok(InstructionType::Unstake(data)) => single_call_outcome(
            before,
            after,
            r,
            spec_process_unstake(program_id, before, data.amount),
        ),
        Ok(InstructionType::Claim) => single_call_outcome(
            before,
            after,
            r,
            spec_process_claim(program_id, before),
        ),
        Ok(InstructionType::Refresh) => refresh_outcome(program_id, before, after, r),
    }
}

/// Decodes a command and runs its handler on the accounts. The calls
/// returned are to be made of the token ledger, in order; if the ledger
/// refuses one, the command ends with that call's `failure`.
/// `rent_exempt_minimum` is the balance that exempts from rent an account
/// of the size of the one that the command creates, if it creates one.
pub fn process(
    program_id: &Address,
    accounts: &mut Vec<AccountInfo>,
    input: &[u8],
    rent_exempt_minimum: u64,
) -> (r: Result<Vec<TokenCall>, ProgramError>)
    ensures
        process_outcome(
            *program_id,
            old(accounts)@,
            final(accounts)@,
            input@,
            rent_exempt_minimum,
            r,
        ),
{
    let instruction = match InstructionType::unpack(input) {
        Ok(instruction) => instruction,
        Err(e) => { return Err(e); },
    };
    match instruction {
        InstructionType::CreatePool(init_data) => process_create_stake_pool(
            program_id,
            accounts,
            init_data,
            rent_exempt_minimum,
        ),
        InstructionType::CreateStakeUser => process_create_stake_user(
            program_id,
            accounts,
            rent_exempt_minimum,
        ),
        InstructionType::Stake(StakeData { amount }) => process_stake(program_id, accounts, amount),
        InstructionType::Unstake(StakeData { amount }) => process_unstake(
            program_id,
            accounts,
            amount,
        ),
        InstructionType::Claim => process_claim(program_id, accounts),
        InstructionType::Refresh => process_refresh(program_id, accounts),
    }
}

/// A `Stake` that succeeds adds exactly the amount to the stake.
pub proof fn lemma_stake_balance(
    program_id: Address,
    pool_info: AccountInfo,
    user_info: AccountInfo,
    owner_info: AccountInfo,
    destination_key: Address,
    source_token: Result<TokenAccount, ProgramError>,
    destination_token: Result<TokenAccount, ProgramError>,
    amount: u64,
    now: i64,
)
    ensures
        spec_stake_decision(
            program_id,
            pool_info,
            user_info,
            owner_info,
            destination_key,
            source_token,
            destination_token,
            amount,
            now,
        ) matches Ok(after) ==> {
            &&& spec_unpack::<StakeUser>(user_info.data@) matches Ok(before)
            &&& after.stake_amount == before.stake_amount + amount
            &&& after.reward_owed >= before.reward_owed
            &&& after.owner == before.owner
            &&& after.pool_pubkey == before.pool_pubkey
            &&& source_token matches Ok(source)
            &&& source.amount >= amount
        },
{
    let before = spec_unpack::<StakeUser>(user_info.data@)->Ok_0;
    let pool = spec_unpack::<Pool>(pool_info.data@)->Ok_0;
    crate::state::lemma_accrue_monotonic(
        before,
        pool.reward_numerator,
        pool.reward_denominator,
        now,
    );
}

/// An `Unstake` that succeeds takes exactly the amount from the stake,
/// which is never more than was staked. Where an `Unstake` of nothing
/// would succeed, an `Unstake` of more than is staked fails with
/// `InsufficientLiquidity`.
pub proof fn lemma_unstake_balance(
    program_id: Address,
    pool_info: AccountInfo,
    user_info: AccountInfo,
    authority_key: Address,
    owner_info: AccountInfo,
    derived: Result<Address, ProgramError>,
    source_token: Result<TokenAccount, ProgramError>,
    destination_token: Result<TokenAccount, ProgramError>,
    amount: u64,
    now: i64,
)
    ensures
        spec_unstake_decision(
            program_id,
            pool_info,
            user_info,
            authority_key,
            owner_info,
            derived,
            source_token,
            destination_token,
            amount,
            now,
        ) matches Ok(after) ==> {
            &&& spec_unpack::<StakeUser>(user_info.data@) matches Ok(before)
            &&& amount <= before.stake_amount
            &&& after.stake_amount == before.stake_amount - amount
            &&& after.reward_owed >= before.reward_owed
            &&& source_token matches Ok(source)
            &&& source.amount >= amount
        },
        spec_unstake_decision(
            program_id,
            pool_info,
            user_info,
            authority_key,
            owner_info,
            derived,
            source_token,
            destination_token,
            0,
            now,
        ) is Ok && amount > spec_unpack::<StakeUser>(user_info.data@)->Ok_0.stake_amount
            ==> spec_unstake_decision(
            program_id,
            pool_info,
            user_info,
            authority_key,
            owner_info,
            derived,
            source_token,
            destination_token,
            amount,
            now,
        ) == Err::<StakeUser, ProgramError>(
            ProgramError::Custom(CustomError::InsufficientLiquidity),
        ),
{
    let before = spec_unpack::<StakeUser>(user_info.data@)->Ok_0;
    let pool = spec_unpack::<Pool>(pool_info.data@)->Ok_0;
    crate::state::lemma_accrue_monotonic(
        before,
        pool.reward_numerator,
        pool.reward_denominator,
        now,
    );
}

/// A command that names an authority succeeds only for the authority that
/// the pool derives: with any other address, or where the seeds derive no
/// address, an `Unstake` fails. Where it would succeed for the derived
/// authority, it fails for any other address with `InvalidPoolAuthority`.
pub proof fn lemma_unstake_forged_authority(
    program_id: Address,
    pool_info: AccountInfo,
    user_info: AccountInfo,
    candidate: Address,
    owner_info: AccountInfo,
    derived: Result<Address, ProgramError>,
    source_token: Result<TokenAccount, ProgramError>,
    destination_token: Result<TokenAccount, ProgramError>,
    amount: u64,
    now: i64,
)
    ensures
        spec_unstake_decision(
            program_id,
            pool_info,
            user_info,
            candidate,
            owner_info,
            derived,
            source_token,
            destination_token,
            amount,
            now,
        ) is Ok ==> (derived matches Ok(authority) && authority@ == candidate@),
        derived matches Ok(authority) ==> (authority@ != candidate@ && spec_unstake_decision(
            program_id,
            pool_info,
            user_info,
            authority,
            owner_info,
            derived,
            source_token,
            destination_token,
            amount,
            now,
        ) is Ok ==> spec_unstake_decision(
            program_id,
            pool_info,
            user_info,
            candidate,
            owner_info,
            derived,
            source_token,
            destination_token,
            amount,
            now,
        ) == Err::<StakeUser, ProgramError>(
            ProgramError::Custom(CustomError::InvalidPoolAuthority),
        )),
{
}

/// The same for a `Claim`.
pub proof fn lemma_claim_forged_authority(
    program_id: Address,
    pool_info: AccountInfo,
    user_info: AccountInfo,
    owner_info: AccountInfo,
    candidate: Address,
    reward_mint_key: Address,
    derived: Result<Address, ProgramError>,
    reward_token: Result<TokenAccount, ProgramError>,
    now: i64,
)
    ensures
        spec_claim_decision(
            program_id,
            pool_info,
            user_info,
            owner_info,
            candidate,
            reward_mint_key,
            derived,
            reward_token,
            now,
        ) is Ok ==> (derived matches Ok(authority) && authority@ == candidate@),
        derived matches Ok(authority) ==> (authority@ != candidate@ && spec_claim_decision(
            program_id,
            pool_info,
            user_info,
            owner_info,
            authority,
            reward_mint_key,
            derived,
            reward_token,
            now,
        ) is Ok ==> spec_claim_decision(
            program_id,
            pool_info,
            user_info,
            owner_info,
            candidate,
            reward_mint_key,
            derived,
            reward_token,
            now,
        ) == Err::<(StakeUser, u64), ProgramError>(
            ProgramError::Custom(CustomError::InvalidPoolAuthority),
        )),
{
}

/// After a `Claim` that succeeds, a second one at the same instant on the
/// record that the first left fails with `InsufficientClaimAmount`.
pub proof fn lemma_claim_twice(
    program_id: Address,
    pool_info: AccountInfo,
    user_info: AccountInfo,
    user_info_after: AccountInfo,
    owner_info: AccountInfo,
    authority_key: Address,
    reward_mint_key: Address,
    derived: Result<Address, ProgramError>,
    reward_token: Result<TokenAccount, ProgramError>,
    now: i64,
)
    requires
        spec_claim_decision(
            program_id,
            pool_info,
            user_info,
            owner_info,
            authority_key,
            reward_mint_key,
            derived,
            reward_token,
            now,
        ) matches Ok((user, amount)) && user_info_after.data@ == user.spec_pack(),
        user_info_after.owner == user_info.owner,
    ensures
        spec_claim_decision(
            program_id,
            pool_info,
            user_info,
            owner_info,
            authority_key,
            reward_mint_key,
            derived,
            reward_token,
            now,
        )->Ok_0.0.reward_owed == 0,
        spec_claim_decision(
            program_id,
            pool_info,
            user_info_after,
            owner_info,
            authority_key,
            reward_mint_key,
            derived,
            reward_token,
            now,
        ) == Err::<(StakeUser, u64), ProgramError>(
            ProgramError::Custom(CustomError::InsufficientClaimAmount),
        ),
{
    let before = spec_unpack::<StakeUser>(user_info.data@)->Ok_0;
    let pool = spec_unpack::<Pool>(pool_info.data@)->Ok_0;
    let after = spec_claim_decision(
        program_id,
        pool_info,
        user_info,
        owner_info,
        authority_key,
        reward_mint_key,
        derived,
        reward_token,
        now,
    )->Ok_0.0;
    crate::state::lemma_stake_user_unpack_pack(after);
    crate::state::lemma_accrue_monotonic(
        before,
        pool.reward_numerator,
        pool.reward_denominator,
        now,
    );
    crate::state::lemma_claim_zeroes(before, pool.reward_numerator, pool.reward_denominator, now);
}

} // verus!
