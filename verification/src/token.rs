//! The token ledger: what the pool reads of its accounts, and the calls the
//! pool asks of it.

use vstd::prelude::*;
use solana_program::pubkey::Pubkey;
use crate::address::Address;
use crate::codec::u64_le_bytes;
use crate::error::CustomError;
use crate::error::ProgramError;
use crate::instruction::AccountMeta;
use crate::instruction::Instruction;
use crate::instruction::InstructionView;
use crate::instruction::readonly;
use crate::instruction::writable;
use crate::sysvar::spec_rent_id;

verus! {

/// Bytes of the address of the token ledger's program,
/// `TokenkegQfeZyiNwAJbNbGKPFXCWuBvf9Ss623VQ5DA`.
pub const TOKEN_PROGRAM_ID: [u8; 32] = [
    6, 221, 246, 225, 215, 101, 161, 147, 217, 203, 225, 70, 206, 235, 121, 172, 28, 180, 133, 237,
    95, 91, 55, 145, 58, 140, 245, 133, 126, 255, 0, 169,
];

/// Number of decimals of the reward mint.
pub const REWARD_DECIMALS: u8 = 9;

/// Address of the token ledger's program.
pub open spec fn spec_token_program_id() -> Address {
    Address { bytes: TOKEN_PROGRAM_ID }
}

/// Calls `spl_token::id`, which returns the constant address that the crate
/// declares for the token program. The contract states that address byte by
/// byte.
#[verifier::external_body]
pub(crate) fn token_program_id() -> (id: Address)
    ensures
        id == spec_token_program_id(),
{
    Address { bytes: spl_token::id().to_bytes() }
}

/// What the pool reads of a token account.
#[derive(Clone, Copy, Debug, PartialEq, Eq)]
pub struct TokenAccount {
    /// The mint whose tokens the account holds
    pub mint: Address,
    /// The owner of the account
    pub owner: Address,
    /// The amount of tokens the account holds
    pub amount: u64,
}

/// What a mint's record holds.
#[derive(Clone, Copy, Debug, PartialEq, Eq)]
pub struct Mint {
    /// Who may mint new tokens, if anyone
    pub mint_authority: Option<Address>,
    /// Total supply of tokens
    pub supply: u64,
    /// Number of base 10 digits to the right of the decimal place
    pub decimals: u8,
    /// Whether the mint has been initialized
    pub is_initialized: bool,
    /// Who may freeze token accounts, if anyone
    pub freeze_authority: Option<Address>,
}

/// The token account that the bytes of an account of the token ledger hold,
/// if they hold an initialized one.
pub uninterp spec fn spl_token_account(data: Seq<u8>) -> Option<TokenAccount>;

/// The mint that the bytes of an account of the token ledger hold, if they
/// hold an initialized one.
pub uninterp spec fn spl_token_mint(data: Seq<u8>) -> Option<Mint>;

/// Calls `Pack::unpack` for `spl_token::state::Account`, which reads a
/// token account from exactly 165 bytes and refuses bytes of another
/// length, with an impossible tag or state, or of an account that was
/// never initialized. What it reads depends on the bytes alone, and
/// `spl_token_account` names it; of the account read, its mint, owner and
/// amount are handed on.
#[verifier::external_body]
fn token_account_unpack(data: &[u8]) -> (r: Option<TokenAccount>)
    ensures
        r == spl_token_account(data@),
{
    match <spl_token::state::Account as solana_program::program_pack::Pack>::unpack(data) {
        Ok(account) => Some(
            TokenAccount {
                mint: Address { bytes: account.mint.to_bytes() },
                owner: Address { bytes: account.owner.to_bytes() },
                amount: account.amount,
            },
        ),
        Err(_) => None,
    }
}

/// Calls `Pack::unpack` for `spl_token::state::Mint`, which reads a mint
/// from exactly 82 bytes and refuses bytes of another length, with an
/// impossible tag or flag, or of a mint that was never initialized. What it
/// reads depends on the bytes alone, and `spl_token_mint` names it.
#[verifier::external_body]
fn token_mint_unpack(data: &[u8]) -> (r: Option<Mint>)
    ensures
        r == spl_token_mint(data@),
{
    let mint = <spl_token::state::Mint as solana_program::program_pack::Pack>::unpack(data).ok()?;
    let to_address = |key: Pubkey| Address { bytes: key.to_bytes() };
    Some(
        Mint {
            mint_authority: Option::from(mint.mint_authority).map(to_address),
            supply: mint.supply,
            decimals: mint.decimals,
            is_initialized: mint.is_initialized,
            freeze_authority: Option::from(mint.freeze_authority).map(to_address),
        },
    )
}

/// What reading a token account from an account gives: the account must
/// belong to the token program, and its bytes must hold a token account.
pub open spec fn spec_unpack_token_account(
    owner: Address,
    data: Seq<u8>,
    token_program_id: Address,
) -> Result<TokenAccount, ProgramError> {
    if owner@ != token_program_id@ {
        Err(ProgramError::Custom(CustomError::InvalidAccountOwner))
    } else {
        match spl_token_account(data) {
            Some(account) => Ok(account),
            None => Err(ProgramError::Custom(CustomError::InvalidTokenAccount)),
        }
    }
}

/// What reading a mint from an account gives: the account must belong to
/// the token program, and its bytes must hold a mint.
pub open spec fn spec_unpack_mint(owner: Address, data: Seq<u8>, token_program_id: Address) -> Result<
    Mint,
    ProgramError,
> {
    if owner@ != token_program_id@ {
        Err(ProgramError::Custom(CustomError::InvalidAccountOwner))
    } else {
        match spl_token_mint(data) {
            Some(mint) => Ok(mint),
            None => Err(ProgramError::Custom(CustomError::InvalidTokenMint)),
        }
    }
}

/// Reads a token account from the bytes of an account with the given
/// owner. Fails with `InvalidAccountOwner` if the account does not belong
/// to the token program, with `InvalidTokenAccount` if its bytes hold no
/// token account.
pub fn unpack_token_account_data(owner: &Address, data: &[u8], token_program_id: &Address) -> (r:
    Result<TokenAccount, ProgramError>)
    ensures
        r == spec_unpack_token_account(*owner, data@, *token_program_id),
{
    if *owner != *token_program_id {
        Err(ProgramError::Custom(CustomError::InvalidAccountOwner))
    } else {
        token_account_result(token_account_unpack(data))
    }
}

/// What is made of the token ledger's reading of an account: no token
/// account is an `InvalidTokenAccount`.
pub fn token_account_result(unpacked: Option<TokenAccount>) -> (r: Result<
    TokenAccount,
    ProgramError,
>)
    ensures
        r == (match unpacked {
            Some(account) => Ok::<TokenAccount, ProgramError>(account),
            None => Err(ProgramError::Custom(CustomError::InvalidTokenAccount)),
        }),
{
    match unpacked {
        Some(account) => Ok(account),
        None => Err(ProgramError::Custom(CustomError::InvalidTokenAccount)),
    }
}

/// Reads a mint from the bytes of an account with the given owner. Fails
/// with `InvalidAccountOwner` if the account does not belong to the token
/// program, with `InvalidTokenMint` if its bytes hold no mint.
pub fn unpack_mint_data(owner: &Address, data: &[u8], token_program_id: &Address) -> (r: Result<
    Mint,
    ProgramError,
>)
    ensures
        r == spec_unpack_mint(*owner, data@, *token_program_id),
{
    if *owner != *token_program_id {
        Err(ProgramError::Custom(CustomError::InvalidAccountOwner))
    } else {
        mint_result(token_mint_unpack(data))
    }
}

/// What is made of the token ledger's reading of a mint: no mint is an
/// `InvalidTokenMint`.
pub fn mint_result(unpacked: Option<Mint>) -> (r: Result<Mint, ProgramError>)
    ensures
        r == (match unpacked {
            Some(mint) => Ok::<Mint, ProgramError>(mint),
            None => Err(ProgramError::Custom(CustomError::InvalidTokenMint)),
        }),
{
    match unpacked {
        Some(mint) => Ok(mint),
        None => Err(ProgramError::Custom(CustomError::InvalidTokenMint)),
    }
}

/// The request that initializes a token account, or none if the program
/// addressed is not the token program.
pub open spec fn spec_initialize_account(
    token_program: Address,
    account: Address,
    mint: Address,
    owner: Address,
) -> Option<InstructionView> {
    if token_program@ != spec_token_program_id()@ {
        None
    } else {
        Some(
            InstructionView {
                program_id: token_program,
                accounts: seq![
                    writable(account, false),
                    readonly(mint, false),
                    readonly(owner, false),
                    readonly(spec_rent_id(), false),
                ],
                data: seq![1u8],
            },
        )
    }
}

/// The request that initializes a mint without a freeze authority, or none
/// if the program addressed is not the token program.
pub open spec fn spec_initialize_mint(
    token_program: Address,
    mint: Address,
    mint_authority: Address,
    decimals: u8,
) -> Option<InstructionView> {
    if token_program@ != spec_token_program_id()@ {
        None
    } else {
        Some(
            InstructionView {
                program_id: token_program,
                accounts: seq![writable(mint, false), readonly(spec_rent_id(), false)],
                data: seq![0u8, decimals] + mint_authority@ + seq![0u8],
            },
        )
    }
}

/// The request that moves `amount` tokens on the signature of one
/// authority, or none if the program addressed is not the token program.
pub open spec fn spec_transfer(
    token_program: Address,
    source: Address,
    destination: Address,
    authority: Address,
    amount: u64,
) -> Option<InstructionView> {
    if token_program@ != spec_token_program_id()@ {
        None
    } else {
        Some(
            InstructionView {
                program_id: token_program,
                accounts: seq![
                    writable(source, false),
                    writable(destination, false),
                    readonly(authority, true),
                ],
                data: seq![3u8] + u64_le_bytes(amount),
            },
        )
    }
}

/// The request that mints `amount` tokens on the signature of one
/// authority, or none if the program addressed is not the token program.
pub open spec fn spec_mint_to(
    token_program: Address,
    mint: Address,
    account: Address,
    owner: Address,
    amount: u64,
) -> Option<InstructionView> {
    if token_program@ != spec_token_program_id()@ {
        None
    } else {
        Some(
            InstructionView {
                program_id: token_program,
                accounts: seq![
                    writable(mint, false),
                    writable(account, false),
                    readonly(owner, true),
                ],
                data: seq![7u8] + u64_le_bytes(amount),
            },
        )
    }
}

/// Whether `r` is the request that `expected` describes.
pub open spec fn is_request(r: Option<Instruction>, expected: Option<InstructionView>) -> bool {
    match expected {
        None => r is None,
        Some(view) => r matches Some(ix) && ix@ == view,
    }
}

/// Calls `spl_token::instruction::initialize_account`. It fails only if
/// `token_program` is not the token program's address. Else it returns the
/// request for that program with the one-byte command 1 and four accounts:
/// the account, writable; the mint; the owner; the rent account.
#[verifier::external_body]
fn initialize_account_instruction(
    token_program: &Address,
    account: &Address,
    mint: &Address,
    owner: &Address,
) -> (r: Option<Instruction>)
    ensures
        is_request(r, spec_initialize_account(*token_program, *account, *mint, *owner)),
{
    let ix = spl_token::instruction::initialize_account(
        &Pubkey::new_from_array(token_program.bytes),
        &Pubkey::new_from_array(account.bytes),
        &Pubkey::new_from_array(mint.bytes),
        &Pubkey::new_from_array(owner.bytes),
    ).ok()?;
    let accounts = ix.accounts.iter().map(
        |m| AccountMeta::new_from(m.pubkey.to_bytes(), m.is_signer, m.is_writable),
    ).collect();
    Some(Instruction { program_id: Address { bytes: ix.program_id.to_bytes() }, accounts, data: ix.data })
}

/// Calls `spl_token::instruction::initialize_mint` without a freeze
/// authority. It fails only if `token_program` is not the token program's
/// address. Else it returns the request for that program with two
/// accounts, the mint, writable, and the rent account, and with the
/// command 0, the decimals, the 32 bytes of the mint authority and a 0 for
/// the absent freeze authority.
#[verifier::external_body]
fn initialize_mint_instruction(
    token_program: &Address,
    mint: &Address,
    mint_authority: &Address,
    decimals: u8,
) -> (r: Option<Instruction>)
    ensures
        is_request(r, spec_initialize_mint(*token_program, *mint, *mint_authority, decimals)),
{
    let ix = spl_token::instruction::initialize_mint(
        &Pubkey::new_from_array(token_program.bytes),
        &Pubkey::new_from_array(mint.bytes),
        &Pubkey::new_from_array(mint_authority.bytes),
        None,
        decimals,
    ).ok()?;
    let accounts = ix.accounts.iter().map(
        |m| AccountMeta::new_from(m.pubkey.to_bytes(), m.is_signer, m.is_writable),
    ).collect();
    Some(Instruction { program_id: Address { bytes: ix.program_id.to_bytes() }, accounts, data: ix.data })
}

/// Calls `spl_token::instruction::transfer` with no further signers. It
/// fails only if `token_program` is not the token program's address. Else
/// it returns the request for that program with three accounts, the source
/// and the destination, both writable, and the authority as signer, and
/// with the command 3 and the amount's eight little-endian bytes.
#[verifier::external_body]
fn transfer_instruction(
    token_program: &Address,
    source: &Address,
    destination: &Address,
    authority: &Address,
    amount: u64,
) -> (r: Option<Instruction>)
    ensures
        is_request(r, spec_transfer(*token_program, *source, *destination, *authority, amount)),
{
    let ix = spl_token::instruction::transfer(
        &Pubkey::new_from_array(token_program.bytes),
        &Pubkey::new_from_array(source.bytes),
        &Pubkey::new_from_array(destination.bytes),
        &Pubkey::new_from_array(authority.bytes),
        &[],
        amount,
    ).ok()?;
    let accounts = ix.accounts.iter().map(
        |m| AccountMeta::new_from(m.pubkey.to_bytes(), m.is_signer, m.is_writable),
    ).collect();
    Some(Instruction { program_id: Address { bytes: ix.program_id.to_bytes() }, accounts, data: ix.data })
}

/// Calls `spl_token::instruction::mint_to` with no further signers. It
/// fails only if `token_program` is not the token program's address. Else
/// it returns the request for that program with three accounts, the mint
/// and the receiving account, both writable, and the mint's authority as
/// signer, and with the command 7 and the amount's eight little-endian
/// bytes.
#[verifier::external_body]
fn mint_to_instruction(
    token_program: &Address,
    mint: &Address,
    account: &Address,
    owner: &Address,
    amount: u64,
) -> (r: Option<Instruction>)
    ensures
        is_request(r, spec_mint_to(*token_program, *mint, *account, *owner, amount)),
{
    let ix = spl_token::instruction::mint_to(
        &Pubkey::new_from_array(token_program.bytes),
        &Pubkey::new_from_array(mint.bytes),
        &Pubkey::new_from_array(account.bytes),
        &Pubkey::new_from_array(owner.bytes),
        &[],
        amount,
    ).ok()?;
    let accounts = ix.accounts.iter().map(
        |m| AccountMeta::new_from(m.pubkey.to_bytes(), m.is_signer, m.is_writable),
    ).collect();
    Some(Instruction { program_id: Address { bytes: ix.program_id.to_bytes() }, accounts, data: ix.data })
}

/// An account of a command: its place in the command's account list and
/// its address.
#[derive(Clone, Copy, Debug, PartialEq, Eq)]
pub struct AccountRef {
    /// The account's place in the command's account list
    pub index: usize,
    /// The account's address
    pub key: Address,
}

/// The seeds with which the pool signs as its derived authority.
#[derive(Clone, Copy, Debug, PartialEq, Eq)]
pub struct AuthoritySeeds {
    /// Address of the pool
    pub pool: Address,
    /// The pool's seed
    pub bump_seed: u8,
}

/// A call that the pool asks of the token ledger once a command has been
/// decided. Whoever runs the command hands the request to the ledger
/// together with the accounts at the given places, signing with the seeds
/// if there are any, and ends the command with `failure` if the ledger
/// refuses.
#[derive(Clone, Debug, PartialEq, Eq)]
pub struct TokenCall {
    /// The request to the token ledger
    pub instruction: Instruction,
    /// Places, in the command's account list, of the accounts to hand over
    pub accounts: Vec<usize>,
    /// Seeds of the derived authority, where it has to sign
    pub signer_seeds: Option<AuthoritySeeds>,
    /// The error that the command ends with if the ledger refuses
    pub failure: CustomError,
}

/// What a `TokenCall` holds.
pub ghost struct TokenCallView {
    pub instruction: InstructionView,
    pub accounts: Seq<usize>,
    pub signer_seeds: Option<AuthoritySeeds>,
    pub failure: CustomError,
}

impl View for TokenCall {
    type V = TokenCallView;

    open spec fn view(&self) -> TokenCallView {
        TokenCallView {
            instruction: self.instruction@,
            accounts: self.accounts@,
            signer_seeds: self.signer_seeds,
            failure: self.failure,
        }
    }
}

impl TokenCall {
    /// Whether the call is made with the signature of the derived
    /// authority.
    pub fn is_signed(&self) -> (signed: bool)
        ensures
            signed == self.signer_seeds.is_some(),
    {
        self.signer_seeds.is_some()
    }

    /// The error that the command ends with if the ledger refuses the call.
    pub fn failure_error(&self) -> (error: ProgramError)
        ensures
            error == ProgramError::Custom(self.failure),
    {
        ProgramError::Custom(self.failure)
    }
}

/// The accounts of the call that initializes the pool's reserve account.
pub struct TokenInitializeAccountParams {
    pub account: AccountRef,
    pub mint: AccountRef,
    pub owner: AccountRef,
    pub rent: AccountRef,
    pub token_program: AccountRef,
}

/// The accounts and the decimals of the call that initializes the reward
/// mint.
pub struct TokenInitializeMintParams {
    pub mint: AccountRef,
    pub rent: AccountRef,
    pub authority: Address,
    pub decimals: u8,
    pub token_program: AccountRef,
}

/// The accounts and the amount of a transfer.
pub struct TokenTransferParams {
    pub source: AccountRef,
    pub destination: AccountRef,
    pub amount: u64,
    pub authority: AccountRef,
    pub authority_signer_seeds: Option<AuthoritySeeds>,
    pub token_program: AccountRef,
}

/// The accounts and the amount of a minting.
pub struct TokenMintToParams {
    pub mint: AccountRef,
    pub destination: AccountRef,
    pub amount: u64,
    pub authority: AccountRef,
    pub authority_signer_seeds: Option<AuthoritySeeds>,
    pub token_program: AccountRef,
}

/// The call that a request becomes: without a request the program
/// addressed was not the token program.
pub open spec fn spec_token_call(
    request: Option<InstructionView>,
    accounts: Seq<usize>,
    signer_seeds: Option<AuthoritySeeds>,
    failure: CustomError,
) -> Result<TokenCallView, ProgramError> {
    match request {
        None => Err(ProgramError::IncorrectProgramId),
        Some(instruction) => Ok(TokenCallView { instruction, accounts, signer_seeds, failure }),
    }
}

/// Whether `r` is the call, or the error, that `expected` describes.
pub open spec fn is_call(r: Result<TokenCall, ProgramError>, expected: Result<
    TokenCallView,
    ProgramError,
>) -> bool {
    match expected {
        Err(e) => r == Err::<TokenCall, ProgramError>(e),
        Ok(view) => r matches Ok(call) && call@ == view,
    }
}

/// Makes a call of a request, if there is one.
pub fn token_call(
    request: Option<Instruction>,
    accounts: Vec<usize>,
    signer_seeds: Option<AuthoritySeeds>,
    failure: CustomError,
) -> (r: Result<TokenCall, ProgramError>)
    ensures
        is_call(
            r,
            spec_token_call(
                match request {
                    Some(ix) => Some(ix@),
                    None => None,
                },
                accounts@,
                signer_seeds,
                failure,
            ),
        ),
{
    match request {
        None => Err(ProgramError::IncorrectProgramId),
        Some(instruction) => Ok(TokenCall { instruction, accounts, signer_seeds, failure }),
    }
}

/// The call that initializes the reserve account.
pub open spec fn spec_init_account_call(params: TokenInitializeAccountParams) -> Result<
    TokenCallView,
    ProgramError,
> {
    spec_token_call(
        spec_initialize_account(
            params.token_program.key,
            params.account.key,
            params.mint.key,
            params.owner.key,
        ),
        seq![
            params.account.index,
            params.mint.index,
            params.owner.index,
            params.rent.index,
            params.token_program.index,
        ],
        None,
        CustomError::TokenInitializeAccountFailed,
    )
}

/// The call that initializes the reward mint.
pub open spec fn spec_init_mint_call(params: TokenInitializeMintParams) -> Result<
    TokenCallView,
    ProgramError,
> {
    spec_token_call(
        spec_initialize_mint(
            params.token_program.key,
            params.mint.key,
            params.authority,
            params.decimals,
        ),
        seq![params.mint.index, params.rent.index, params.token_program.index],
        None,
        CustomError::TokenInitializeMintFailed,
    )
}

/// The call that transfers tokens.
pub open spec fn spec_transfer_call(params: TokenTransferParams) -> Result<
    TokenCallView,
    ProgramError,
> {
    spec_token_call(
        spec_transfer(
            params.token_program.key,
            params.source.key,
            params.destination.key,
            params.authority.key,
            params.amount,
        ),
        seq![
            params.source.index,
            params.destination.index,
            params.authority.index,
            params.token_program.index,
        ],
        params.authority_signer_seeds,
        CustomError::TokenTransferFailed,
    )
}

/// The call that mints tokens.
pub open spec fn spec_mint_to_call(params: TokenMintToParams) -> Result<TokenCallView, ProgramError> {
    spec_token_call(
        spec_mint_to(
            params.token_program.key,
            params.mint.key,
            params.destination.key,
            params.authority.key,
            params.amount,
        ),
        seq![
            params.mint.index,
            params.destination.index,
            params.authority.index,
            params.token_program.index,
        ],
        params.authority_signer_seeds,
        CustomError::TokenMintToFailed,
    )
}

/// Prepares the call that initializes the pool's reserve account for the
/// given mint and owner. A ledger that refuses it ends the command with
/// `TokenInitializeAccountFailed`.
pub fn spl_token_init_account(params: TokenInitializeAccountParams) -> (r: Result<
    TokenCall,
    ProgramError,
>)
    ensures
        is_call(r, spec_init_account_call(params)),
{
    let request = initialize_account_instruction(
        &params.token_program.key,
        &params.account.key,
        &params.mint.key,
        &params.owner.key,
    );
    let accounts: Vec<usize> = vec![
        params.account.index,
        params.mint.index,
        params.owner.index,
        params.rent.index,
        params.token_program.index,
    ];
    token_call(request, accounts, None, CustomError::TokenInitializeAccountFailed)
}

/// Prepares the call that initializes the reward mint with the given
/// authority. A ledger that refuses it ends the command with
/// `TokenInitializeMintFailed`.
pub fn spl_token_init_mint(params: TokenInitializeMintParams) -> (r: Result<
    TokenCall,
    ProgramError,
>)
    ensures
        is_call(r, spec_init_mint_call(params)),
{
    let request = initialize_mint_instruction(
        &params.token_program.key,
        &params.mint.key,
        &params.authority,
        params.decimals,
    );
    let accounts: Vec<usize> = vec![
        params.mint.index,
        params.rent.index,
        params.token_program.index,
    ];
    token_call(request, accounts, None, CustomError::TokenInitializeMintFailed)
}

/// Prepares a transfer, signed with the seeds if there are any. A ledger
/// that refuses it ends the command with `TokenTransferFailed`.
pub fn spl_token_transfer(params: TokenTransferParams) -> (r: Result<TokenCall, ProgramError>)
    ensures
        is_call(r, spec_transfer_call(params)),
{
    let request = transfer_instruction(
        &params.token_program.key,
        &params.source.key,
        &params.destination.key,
        &params.authority.key,
        params.amount,
    );
    let accounts: Vec<usize> = vec![
        params.source.index,
        params.destination.index,
        params.authority.index,
        params.token_program.index,
    ];
    token_call(request, accounts, params.authority_signer_seeds, CustomError::TokenTransferFailed)
}

/// Prepares a minting, signed with the seeds if there are any. A ledger
/// that refuses it ends the command with `TokenMintToFailed`.
pub fn spl_token_mint_to(params: TokenMintToParams) -> (r: Result<TokenCall, ProgramError>)
    ensures
        is_call(r, spec_mint_to_call(params)),
{
    let request = mint_to_instruction(
        &params.token_program.key,
        &params.mint.key,
        &params.destination.key,
        &params.authority.key,
        params.amount,
    );
    let accounts: Vec<usize> = vec![
        params.mint.index,
        params.destination.index,
        params.authority.index,
        params.token_program.index,
    ];
    token_call(request, accounts, params.authority_signer_seeds, CustomError::TokenMintToFailed)
}

} // verus!
