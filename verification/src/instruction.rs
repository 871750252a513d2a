//! The six commands, their wire format, and the requests that carry them.

use vstd::prelude::*;
use crate::address::Address;
use crate::codec::le_u64_at;
use crate::codec::lemma_u64_le_roundtrip;
use crate::codec::push_u64;
use crate::codec::read_u64;
use crate::codec::u64_le_bytes;
use crate::error::CustomError;
use crate::error::ProgramError;
use crate::sysvar::clock_id;
use crate::sysvar::rent_id;
use crate::sysvar::spec_clock_id;
use crate::sysvar::spec_rent_id;
use crate::token::spec_token_program_id;
use crate::token::token_program_id;

verus! {

/// A command to the pool. The accounts that each command reads are listed
/// in the order in which it expects them.
#[derive(Clone, Copy, Debug, PartialEq, Eq, Structural)]
pub enum InstructionType {
    /// Create stake pool
    ///
    /// 0. `[writable]` stake pool account to create
    /// 1. `[]` authority derived from the pool and the seed
    /// 2. `[]` staking token mint
    /// 3. `[writable]` staking token reserve account
    /// 4. `[writable]` reward token mint
    /// 5. `[]` rent account
    /// 6. `[]` token program
    CreatePool(InitData),
    /// Create stake user
    ///
    /// 0. `[]` stake pool account
    /// 1. `[writable]` stake user account to create
    /// 2. `[signer]` stake user owner account
    /// 3. `[]` rent account
    CreateStakeUser,
    /// Stake token to the pool
    ///
    /// 0. `[]` stake pool account
    /// 1. `[writable]` stake user account
    /// 2. `[signer]` user transfer authority
    /// 3. `[signer]` stake user owner account
    /// 4. `[writable]` staking token user account
    /// 5. `[writable]` staking token reserve account
    /// 6. `[]` clock account
    /// 7. `[]` token program
    Stake(StakeData),
    /// Unstake token from the pool
    ///
    /// 0. `[]` stake pool account
    /// 1. `[writable]` stake user account
    /// 2. `[]` authority derived from the pool and the seed
    /// 3. `[signer]` stake user owner account
    /// 4. `[writable]` staking token reserve account
    /// 5. `[writable]` staking token user account
    /// 6. `[]` clock account
    /// 7. `[]` token program
    Unstake(StakeData),
    /// Bring the reward up to date and claim it
    ///
    /// 0. `[]` stake pool account
    /// 1. `[writable]` stake user account
    /// 2. `[signer]` stake owner account
    /// 3. `[]` authority derived from the pool and the seed
    /// 4. `[writable]` reward token mint
    /// 5. `[writable]` reward token account
    /// 6. `[]` clock account
    /// 7. `[]` token program
    Claim,
    /// Bring the reward of many stake users up to date
    ///
    /// 0. `[]` stake pool account
    /// 1. `[]` clock account
    /// 2. `[writable]` any number of stake user accounts
    Refresh,
}

/// What a pool is created with.
#[derive(Clone, Copy, Debug, PartialEq, Eq, Structural)]
pub struct InitData {
    /// Seed from which the pool's authority is derived
    pub bump_seed: u8,
    /// Daily reward numerator
    pub reward_numerator: u64,
    /// Daily reward denominator
    pub reward_denominator: u64,
}

/// What is staked or unstaked.
#[derive(Clone, Copy, Debug, PartialEq, Eq, Structural)]
pub struct StakeData {
    /// Amount to stake or to unstake
    pub amount: u64,
}

impl InstructionType {
    /// The command's bytes: its tag, then its fields, little-endian and
    /// without padding.
    pub open spec fn spec_pack(self) -> Seq<u8> {
        match self {
            InstructionType::CreatePool(init) => seq![1u8, init.bump_seed] + u64_le_bytes(
                init.reward_numerator,
            ) + u64_le_bytes(init.reward_denominator),
            InstructionType::CreateStakeUser => seq![2u8],
            InstructionType::Stake(data) => seq![3u8] + u64_le_bytes(data.amount),
            InstructionType::Unstake(data) => seq![4u8] + u64_le_bytes(data.amount),
            InstructionType::Claim => seq![5u8],
            InstructionType::Refresh => seq![6u8],
        }
    }

    /// The command that a byte string holds. Without a tag, or with an
    /// unknown one, it is an `IncorrectInstruction`; with a payload shorter
    /// than the tag requires, an `InstructionUnpackError`. Bytes after the
    /// payload are ignored.
    pub open spec fn spec_unpack(input: Seq<u8>) -> Result<InstructionType, ProgramError> {
        if input.len() == 0 {
            Err(ProgramError::Custom(CustomError::IncorrectInstruction))
        } else if input[0] == 1 {
            if input.len() < 18 {
                Err(ProgramError::Custom(CustomError::InstructionUnpackError))
            } else {
                Ok(
                    InstructionType::CreatePool(
                        InitData {
                            bump_seed: input[1],
                            reward_numerator: le_u64_at(input, 2),
                            reward_denominator: le_u64_at(input, 10),
                        },
                    ),
                )
            }
        } else if input[0] == 2 {
            Ok(InstructionType::CreateStakeUser)
        } else if input[0] == 3 {
            if input.len() < 9 {
                Err(ProgramError::Custom(CustomError::InstructionUnpackError))
            } else {
                Ok(InstructionType::Stake(StakeData { amount: le_u64_at(input, 1) }))
            }
        } else if input[0] == 4 {
            if input.len() < 9 {
                Err(ProgramError::Custom(CustomError::InstructionUnpackError))
            } else {
                Ok(InstructionType::Unstake(StakeData { amount: le_u64_at(input, 1) }))
            }
        } else if input[0] == 5 {
            Ok(InstructionType::Claim)
        } else if input[0] == 6 {
            Ok(InstructionType::Refresh)
        } else {
            Err(ProgramError::Custom(CustomError::IncorrectInstruction))
        }
    }

    /// Places, in the command's account list, of the rent account and of
    /// the account that the command creates, for the commands that create
    /// one.
    pub open spec fn spec_rent_accounts(self) -> Option<(usize, usize)> {
        match self {
            InstructionType::CreatePool(_) => Some((5usize, 0usize)),
            InstructionType::CreateStakeUser => Some((3usize, 1usize)),
            _ => None,
        }
    }

    /// Places of the rent account and of the account that the command
    /// creates, for the commands that create one. The host reads the rent
    /// parameters at the first and hands the command the balance that
    /// exempts an account of the size of the second.
    pub fn rent_accounts(&self) -> (places: Option<(usize, usize)>)
        ensures
            places == self.spec_rent_accounts(),
    {
        match self {
            InstructionType::CreatePool(_) => Some((5, 0)),
            InstructionType::CreateStakeUser => Some((3, 1)),
            _ => None,
        }
    }

    /// Reads a command from its bytes.
    pub fn unpack(input: &[u8]) -> (r: Result<InstructionType, ProgramError>)
        ensures
            r == InstructionType::spec_unpack(input@),
    {
        if input.len() == 0 {
            return Err(ProgramError::Custom(CustomError::IncorrectInstruction));
        }
        let tag: u8 = input[0];
        let rest: &[u8] = vstd::slice::slice_subrange(input, 1, input.len());
        if tag == 1 {
            let (bump_seed, rest) = match unpack_u8(rest) {
                Ok(pair) => pair,
                Err(e) => { return Err(e); },
            };
            let (reward_numerator, rest) = match unpack_u64(rest) {
                Ok(pair) => pair,
                Err(e) => { return Err(e); },
            };
            let (reward_denominator, _) = match unpack_u64(rest) {
                Ok(pair) => pair,
                Err(e) => { return Err(e); },
            };
            Ok(
                InstructionType::CreatePool(
                    InitData { bump_seed, reward_numerator, reward_denominator },
                ),
            )
        } else if tag == 2 {
            Ok(InstructionType::CreateStakeUser)
        } else if tag == 3 {
            let (amount, _) = match unpack_u64(rest) {
                Ok(pair) => pair,
                Err(e) => { return Err(e); },
            };
            Ok(InstructionType::Stake(StakeData { amount }))
        } else if tag == 4 {
            let (amount, _) = match unpack_u64(rest) {
                Ok(pair) => pair,
                Err(e) => { return Err(e); },
            };
            Ok(InstructionType::Unstake(StakeData { amount }))
        } else if tag == 5 {
            Ok(InstructionType::Claim)
        } else if tag == 6 {
            Ok(InstructionType::Refresh)
        } else {
            Err(ProgramError::Custom(CustomError::IncorrectInstruction))
        }
    }

    /// Writes a command as bytes.
    pub fn pack(&self) -> (buf: Vec<u8>)
        ensures
            buf@ == self.spec_pack(),
    {
        let mut buf: Vec<u8> = Vec::new();
        match *self {
            InstructionType::CreatePool(
                InitData { bump_seed, reward_numerator, reward_denominator },
            ) => {
                buf.push(1);
                buf.push(bump_seed);
                push_u64(&mut buf, reward_numerator);
                push_u64(&mut buf, reward_denominator);
            },
            InstructionType::CreateStakeUser => {
                buf.push(2);
            },
            InstructionType::Stake(StakeData { amount }) => {
                buf.push(3);
                push_u64(&mut buf, amount);
            },
            InstructionType::Unstake(StakeData { amount }) => {
                buf.push(4);
                push_u64(&mut buf, amount);
            },
            InstructionType::Claim => {
                buf.push(5);
            },
            InstructionType::Refresh => {
                buf.push(6);
            },
        }
        assert(buf@ =~= self.spec_pack());
        buf
    }
}

/// Every command reads back from its own bytes, whatever follows them.
pub proof fn lemma_instruction_round_trip(instruction: InstructionType, rest: Seq<u8>)
    ensures
        InstructionType::spec_unpack(instruction.spec_pack() + rest) == Ok::<
            InstructionType,
            ProgramError,
        >(instruction),
        InstructionType::spec_unpack(instruction.spec_pack()) == Ok::<
            InstructionType,
            ProgramError,
        >(instruction),
    decreases rest.len(),
{
    let s = instruction.spec_pack() + rest;
    match instruction {
        InstructionType::CreatePool(init) => {
            assert(s.subrange(2, 10) =~= u64_le_bytes(init.reward_numerator));
            assert(s.subrange(10, 18) =~= u64_le_bytes(init.reward_denominator));
            lemma_u64_le_roundtrip(init.reward_numerator, s, 2);
            lemma_u64_le_roundtrip(init.reward_denominator, s, 10);
            assert(s[0] == 1 && s[1] == init.bump_seed);
        },
        InstructionType::Stake(data) => {
            assert(s.subrange(1, 9) =~= u64_le_bytes(data.amount));
            lemma_u64_le_roundtrip(data.amount, s, 1);
            assert(s[0] == 3);
        },
        InstructionType::Unstake(data) => {
            assert(s.subrange(1, 9) =~= u64_le_bytes(data.amount));
            lemma_u64_le_roundtrip(data.amount, s, 1);
            assert(s[0] == 4);
        },
        InstructionType::CreateStakeUser => {
            assert(s[0] == 2);
        },
        InstructionType::Claim => {
            assert(s[0] == 5);
        },
        InstructionType::Refresh => {
            assert(s[0] == 6);
        },
    }
    if rest.len() == 0 {
        assert(s =~= instruction.spec_pack());
    } else {
        lemma_instruction_round_trip(instruction, Seq::empty());
    }
}

/// Takes one byte off the front of `input`.
pub fn unpack_u8(input: &[u8]) -> (r: Result<(u8, &[u8]), ProgramError>)
    ensures
        input@.len() == 0 ==> r == Err::<(u8, &[u8]), ProgramError>(
            ProgramError::Custom(CustomError::InstructionUnpackError),
        ),
        input@.len() > 0 ==> (r matches Ok((value, rest)) && value == input@[0] && rest@
            == input@.subrange(1, input@.len() as int)),
{
    if input.len() == 0 {
        return Err(ProgramError::Custom(CustomError::InstructionUnpackError));
    }
    let value: u8 = input[0];
    let rest: &[u8] = vstd::slice::slice_subrange(input, 1, input.len());
    Ok((value, rest))
}

/// Takes one little-endian 64-bit number off the front of `input`.
pub fn unpack_u64(input: &[u8]) -> (r: Result<(u64, &[u8]), ProgramError>)
    ensures
        input@.len() < 8 ==> r == Err::<(u64, &[u8]), ProgramError>(
            ProgramError::Custom(CustomError::InstructionUnpackError),
        ),
        input@.len() >= 8 ==> (r matches Ok((value, rest)) && value == le_u64_at(input@, 0)
            && rest@ == input@.subrange(8, input@.len() as int)),
{
    if input.len() < 8 {
        return Err(ProgramError::Custom(CustomError::InstructionUnpackError));
    }
    let value: u64 = read_u64(input, 0);
    let rest: &[u8] = vstd::slice::slice_subrange(input, 8, input.len());
    Ok((value, rest))
}

/// An account that a request names, and how the request uses it.
#[derive(Clone, Copy, Debug, PartialEq, Eq)]
pub struct AccountMeta {
    /// The account's address
    pub pubkey: Address,
    /// Whether the request must be signed for this account
    pub is_signer: bool,
    /// Whether the request may change the account
    pub is_writable: bool,
}

impl AccountMeta {
    /// An account that the request may change.
    pub fn new(pubkey: Address, is_signer: bool) -> (meta: AccountMeta)
        ensures
            meta == (AccountMeta { pubkey, is_signer, is_writable: true }),
    {
        AccountMeta { pubkey, is_signer, is_writable: true }
    }

    /// An account that the request only reads.
    pub fn new_readonly(pubkey: Address, is_signer: bool) -> (meta: AccountMeta)
        ensures
            meta == (AccountMeta { pubkey, is_signer, is_writable: false }),
    {
        AccountMeta { pubkey, is_signer, is_writable: false }
    }

    /// The account with the given address bytes and uses.
    pub fn new_from(bytes: [u8; 32], is_signer: bool, is_writable: bool) -> (meta: AccountMeta)
        ensures
            meta == (AccountMeta { pubkey: Address { bytes }, is_signer, is_writable }),
    {
        AccountMeta { pubkey: Address { bytes }, is_signer, is_writable }
    }
}

/// A request to a program: the program, the accounts it is to work on, and
/// the command's bytes.
#[derive(Clone, Debug, PartialEq, Eq)]
pub struct Instruction {
    /// Address of the program that executes the request
    pub program_id: Address,
    /// The accounts that the program is handed, in order
    pub accounts: Vec<AccountMeta>,
    /// The command's bytes
    pub data: Vec<u8>,
}

/// What an `Instruction` holds.
pub ghost struct InstructionView {
    pub program_id: Address,
    pub accounts: Seq<AccountMeta>,
    pub data: Seq<u8>,
}

impl View for Instruction {
    type V = InstructionView;

    open spec fn view(&self) -> InstructionView {
        InstructionView { program_id: self.program_id, accounts: self.accounts@, data: self.data@ }
    }
}

/// An account that a request may change.
pub open spec fn writable(pubkey: Address, is_signer: bool) -> AccountMeta {
    AccountMeta { pubkey, is_signer, is_writable: true }
}

/// An account that a request only reads.
pub open spec fn readonly(pubkey: Address, is_signer: bool) -> AccountMeta {
    AccountMeta { pubkey, is_signer, is_writable: false }
}

/// The request that creates a stake pool.
pub fn create_stake_pool(
    program_id: Address,
    stake_pool_pubkey: Address,
    stake_pool_authority_pubkey: Address,
    staking_token_mint_pubkey: Address,
    staking_token_reserve_pubkey: Address,
    reward_token_mint_pubkey: Address,
    init_data: InitData,
) -> (r: Result<Instruction, ProgramError>)
    ensures
        r matches Ok(ix) && ix@ == (InstructionView {
            program_id,
            accounts: seq![
                writable(stake_pool_pubkey, true),
                readonly(stake_pool_authority_pubkey, false),
                readonly(staking_token_mint_pubkey, false),
                writable(staking_token_reserve_pubkey, false),
                writable(reward_token_mint_pubkey, false),
                readonly(spec_rent_id(), false),
                readonly(spec_token_program_id(), false),
            ],
            data: InstructionType::CreatePool(init_data).spec_pack(),
        }),
{
    let data = InstructionType::CreatePool(init_data).pack();
    let accounts = vec![
        AccountMeta::new(stake_pool_pubkey, true),
        AccountMeta::new_readonly(stake_pool_authority_pubkey, false),
        AccountMeta::new_readonly(staking_token_mint_pubkey, false),
        AccountMeta::new(staking_token_reserve_pubkey, false),
        AccountMeta::new(reward_token_mint_pubkey, false),
        AccountMeta::new_readonly(rent_id(), false),
        AccountMeta::new_readonly(token_program_id(), false),
    ];
    let ix = Instruction { program_id, accounts, data };
    assert(ix@.accounts =~= seq![
        writable(stake_pool_pubkey, true),
        readonly(stake_pool_authority_pubkey, false),
        readonly(staking_token_mint_pubkey, false),
        writable(staking_token_reserve_pubkey, false),
        writable(reward_token_mint_pubkey, false),
        readonly(spec_rent_id(), false),
        readonly(spec_token_program_id(), false),
    ]);
    Ok(ix)
}

/// The request that creates a stake user.
pub fn create_stake_user(
    program_id: Address,
    stake_pool_pubkey: Address,
    stake_user_pubkey: Address,
    stake_owner_pubkey: Address,
) -> (r: Result<Instruction, ProgramError>)
    ensures
        r matches Ok(ix) && ix@ == (InstructionView {
            program_id,
            accounts: seq![
                readonly(stake_pool_pubkey, false),
                writable(stake_user_pubkey, false),
                writable(stake_owner_pubkey, true),
                readonly(spec_rent_id(), false),
            ],
            data: InstructionType::CreateStakeUser.spec_pack(),
        }),
{
    let data = InstructionType::CreateStakeUser.pack();
    let accounts = vec![
        AccountMeta::new_readonly(stake_pool_pubkey, false),
        AccountMeta::new(stake_user_pubkey, false),
        AccountMeta::new(stake_owner_pubkey, true),
        AccountMeta::new_readonly(rent_id(), false),
    ];
    let ix = Instruction { program_id, accounts, data };
    assert(ix@.accounts =~= seq![
        readonly(stake_pool_pubkey, false),
        writable(stake_user_pubkey, false),
        writable(stake_owner_pubkey, true),
        readonly(spec_rent_id(), false),
    ]);
    Ok(ix)
}

/// The request that stakes `amount`.
pub fn stake(
    program_id: Address,
    stake_pool_pubkey: Address,
    stake_user_pubkey: Address,
    user_transfer_authority_pubkey: Address,
    stake_owner_pubkey: Address,
    source_pubkey: Address,
    destination_pubkey: Address,
    amount: u64,
) -> (r: Result<Instruction, ProgramError>)
    ensures
        r matches Ok(ix) && ix@ == (InstructionView {
            program_id,
            accounts: seq![
                readonly(stake_pool_pubkey, false),
                writable(stake_user_pubkey, false),
                readonly(user_transfer_authority_pubkey, true),
                readonly(stake_owner_pubkey, true),
                writable(source_pubkey, false),
                writable(destination_pubkey, false),
                readonly(spec_clock_id(), false),
                readonly(spec_token_program_id(), false),
            ],
            data: InstructionType::Stake(StakeData { amount }).spec_pack(),
        }),
{
    let data = InstructionType::Stake(StakeData { amount }).pack();
    let accounts = vec![
        AccountMeta::new_readonly(stake_pool_pubkey, false),
        AccountMeta::new(stake_user_pubkey, false),
        AccountMeta::new_readonly(user_transfer_authority_pubkey, true),
        AccountMeta::new_readonly(stake_owner_pubkey, true),
        AccountMeta::new(source_pubkey, false),
        AccountMeta::new(destination_pubkey, false),
        AccountMeta::new_readonly(clock_id(), false),
        AccountMeta::new_readonly(token_program_id(), false),
    ];
    let ix = Instruction { program_id, accounts, data };
    assert(ix@.accounts =~= seq![
        readonly(stake_pool_pubkey, false),
        writable(stake_user_pubkey, false),
        readonly(user_transfer_authority_pubkey, true),
        readonly(stake_owner_pubkey, true),
        writable(source_pubkey, false),
        writable(destination_pubkey, false),
        readonly(spec_clock_id(), false),
        readonly(spec_token_program_id(), false),
    ]);
    Ok(ix)
}

/// The request that unstakes `amount`.
pub fn unstake(
    program_id: Address,
    stake_pool_pubkey: Address,
    stake_user_pubkey: Address,
    authority_pubkey: Address,
    stake_owner_pubkey: Address,
    source_pubkey: Address,
    destination_pubkey: Address,
    amount: u64,
) -> (r: Result<Instruction, ProgramError>)
    ensures
        r matches Ok(ix) && ix@ == (InstructionView {
            program_id,
            accounts: seq![
                writable(stake_pool_pubkey, false),
                writable(stake_user_pubkey, false),
                readonly(authority_pubkey, false),
                readonly(stake_owner_pubkey, true),
                writable(source_pubkey, false),
                writable(destination_pubkey, false),
                readonly(spec_clock_id(), false),
                readonly(spec_token_program_id(), false),
            ],
            data: InstructionType::Unstake(StakeData { amount }).spec_pack(),
        }),
{
    let data = InstructionType::Unstake(StakeData { amount }).pack();
    let accounts = vec![
        AccountMeta::new(stake_pool_pubkey, false),
        AccountMeta::new(stake_user_pubkey, false),
        AccountMeta::new_readonly(authority_pubkey, false),
        AccountMeta::new_readonly(stake_owner_pubkey, true),
        AccountMeta::new(source_pubkey, false),
        AccountMeta::new(destination_pubkey, false),
        AccountMeta::new_readonly(clock_id(), false),
        AccountMeta::new_readonly(token_program_id(), false),
    ];
    let ix = Instruction { program_id, accounts, data };
    assert(ix@.accounts =~= seq![
        writable(stake_pool_pubkey, false),
        writable(stake_user_pubkey, false),
        readonly(authority_pubkey, false),
        readonly(stake_owner_pubkey, true),
        writable(source_pubkey, false),
        writable(destination_pubkey, false),
        readonly(spec_clock_id(), false),
        readonly(spec_token_program_id(), false),
    ]);
    Ok(ix)
}

/// The request that claims the reward owed.
pub fn claim(
    program_id: Address,
    stake_pool_pubkey: Address,
    stake_user_pubkey: Address,
    authority_pubkey: Address,
    reward_token_mint_pubkey: Address,
    destination_pubkey: Address,
) -> (r: Result<Instruction, ProgramError>)
    ensures
        r matches Ok(ix) && ix@ == (InstructionView {
            program_id,
            accounts: seq![
                readonly(stake_pool_pubkey, false),
                writable(stake_user_pubkey, false),
                readonly(authority_pubkey, false),
                writable(reward_token_mint_pubkey, false),
                writable(destination_pubkey, false),
                readonly(spec_clock_id(), false),
                readonly(spec_token_program_id(), false),
            ],
            data: InstructionType::Claim.spec_pack(),
        }),
{
    let data = InstructionType::Claim.pack();
    let accounts = vec![
        AccountMeta::new_readonly(stake_pool_pubkey, false),
        AccountMeta::new(stake_user_pubkey, false),
        AccountMeta::new_readonly(authority_pubkey, false),
        AccountMeta::new(reward_token_mint_pubkey, false),
        AccountMeta::new(destination_pubkey, false),
        AccountMeta::new_readonly(clock_id(), false),
        AccountMeta::new_readonly(token_program_id(), false),
    ];
    let ix = Instruction { program_id, accounts, data };
    assert(ix@.accounts =~= seq![
        readonly(stake_pool_pubkey, false),
        writable(stake_user_pubkey, false),
        readonly(authority_pubkey, false),
        writable(reward_token_mint_pubkey, false),
        writable(destination_pubkey, false),
        readonly(spec_clock_id(), false),
        readonly(spec_token_program_id(), false),
    ]);
    Ok(ix)
}

/// The request that brings the given stake users up to date.
pub fn refresh(program_id: Address, stake_pool_pubkey: Address, stake_user_pubkeys: Vec<Address>) -> (r:
    Result<Instruction, ProgramError>)
    ensures
        r matches Ok(ix) && ix@ == (InstructionView {
            program_id,
            accounts: seq![
                readonly(stake_pool_pubkey, false),
                readonly(spec_clock_id(), false),
            ] + Seq::new(
                stake_user_pubkeys@.len(),
                |i: int| writable(stake_user_pubkeys@[i], false),
            ),
            data: InstructionType::Refresh.spec_pack(),
        }),
{
    let data = InstructionType::Refresh.pack();
    let mut accounts = vec![
        AccountMeta::new_readonly(stake_pool_pubkey, false),
        AccountMeta::new_readonly(clock_id(), false),
    ];
    let ghost head = accounts@;
    let n: usize = stake_user_pubkeys.len();
    let mut i: usize = 0;
    while i < n
        invariant
            i <= n,
            n == stake_user_pubkeys@.len(),
            accounts@ == head + Seq::new(
                i as nat,
                |k: int| writable(stake_user_pubkeys@[k], false),
            ),
        decreases n - i,
    {
        accounts.push(AccountMeta::new(stake_user_pubkeys[i], false));
        assert(accounts@ =~= head + Seq::new(
            (i + 1) as nat,
            |k: int| writable(stake_user_pubkeys@[k], false),
        ));
        i = i + 1;
    }
    let ix = Instruction { program_id, accounts, data };
    assert(ix@.accounts =~= seq![
        readonly(stake_pool_pubkey, false),
        readonly(spec_clock_id(), false),
    ] + Seq::new(stake_user_pubkeys@.len(), |i: int| writable(stake_user_pubkeys@[i], false)));
    Ok(ix)
}

} // verus!
