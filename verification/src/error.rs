//! The errors a command can end with.

use vstd::prelude::*;

verus! {

/// The engine's own errors. Each has a stable numeric code, its position in
/// this list, by which callers outside the ledger tell them apart.
#[derive(Clone, Copy, Debug, PartialEq, Eq, Structural)]
pub enum CustomError {
    /// The command's tag is missing or unknown.
    IncorrectInstruction,
    /// The command's payload is shorter than its tag requires.
    InstructionUnpackError,
    /// An accrual or balance computation overflowed, underflowed or divided by zero.
    CalculationFailure,
    /// More was asked back than is staked or held in reserve.
    InsufficientLiquidity,
    /// There is no reward to claim.
    InsufficientClaimAmount,
    /// A new record's balance is below the rent-exempt minimum.
    NotRentExempt,
    /// The record to create is already initialized.
    AlreadyInUse,
    /// A record is not owned by the program it was handed to.
    InvalidAccountOwner,
    /// The token ledger refused to initialize the reserve account.
    TokenInitializeAccountFailed,
    /// The token ledger refused to initialize the reward mint.
    TokenInitializeMintFailed,
    /// The supplied authority is not the one derived from the pool.
    InvalidPoolAuthority,
    /// A token account or mint does not match the pool's mint.
    InvalidTokenMint,
    /// A token account is malformed or is not the pool's reserve.
    InvalidTokenAccount,
    /// A token account has a close authority.
    InvalidCloseAuthority,
    /// A mint has a freeze authority.
    InvalidFreezeAuthority,
    /// A token account has a delegate.
    InvalidDelegate,
    /// An account that must authorize the command did not sign.
    InvalidSigner,
    /// The stake record belongs to another owner or another pool.
    InvalidStakeOwner,
    /// The source account holds less than the amount to stake.
    InsufficientFunds,
    /// The token ledger refused a transfer.
    TokenTransferFailed,
    /// The token ledger refused to mint the reward.
    TokenMintToFailed,
}

/// How a command fails: with one of the engine's own errors, or with one of
/// the host ledger's general error kinds.
#[derive(Clone, Copy, Debug, PartialEq, Eq, Structural)]
pub enum ProgramError {
    /// One of the engine's own errors.
    Custom(CustomError),
    /// An account of the host that the command needs is not the one handed
    /// in, or does not hold what it should.
    InvalidArgument,
    /// The command names fewer accounts than its handler reads.
    NotEnoughAccountKeys,
    /// A record's bytes have the wrong length or hold an impossible value.
    InvalidAccountData,
    /// A record that must exist has never been initialized.
    UninitializedAccount,
    /// The token program handed in is not the token ledger.
    IncorrectProgramId,
    /// A seed of the authority derivation is too long.
    MaxSeedLengthExceeded,
    /// The pool's seed derives no valid authority address.
    InvalidSeeds,
    /// The authority derivation refuses the owning program.
    IllegalOwner,
}

impl CustomError {
    /// The numeric code of each error.
    pub open spec fn spec_code(self) -> u32 {
        match self {
            CustomError::IncorrectInstruction => 0,
            CustomError::InstructionUnpackError => 1,
            CustomError::CalculationFailure => 2,
            CustomError::InsufficientLiquidity => 3,
            CustomError::InsufficientClaimAmount => 4,
            CustomError::NotRentExempt => 5,
            CustomError::AlreadyInUse => 6,
            CustomError::InvalidAccountOwner => 7,
            CustomError::TokenInitializeAccountFailed => 8,
            CustomError::TokenInitializeMintFailed => 9,
            CustomError::InvalidPoolAuthority => 10,
            CustomError::InvalidTokenMint => 11,
            CustomError::InvalidTokenAccount => 12,
            CustomError::InvalidCloseAuthority => 13,
            CustomError::InvalidFreezeAuthority => 14,
            CustomError::InvalidDelegate => 15,
            CustomError::InvalidSigner => 16,
            CustomError::InvalidStakeOwner => 17,
            CustomError::InsufficientFunds => 18,
            CustomError::TokenTransferFailed => 19,
            CustomError::TokenMintToFailed => 20,
        }
    }

    /// The text that describes each error.
    pub open spec fn spec_message(self) -> Seq<char> {
        match self {
            CustomError::IncorrectInstruction => "Incorrect program instruction"@,
            CustomError::InstructionUnpackError => "Instruction unpack is failed"@,
            CustomError::CalculationFailure => "CalculationFailure"@,
            CustomError::InsufficientLiquidity => "Insufficient liquidity available"@,
            CustomError::InsufficientClaimAmount => "Insufficient claim amount"@,
            CustomError::NotRentExempt => "Lamport balance below rent-exempt threshold"@,
            CustomError::AlreadyInUse => "Stake pool is already initialized"@,
            CustomError::InvalidAccountOwner => "Input account owner is not the program address"@,
            CustomError::TokenInitializeAccountFailed => "Token initialize account failed"@,
            CustomError::TokenInitializeMintFailed => "Token initialize mint failed"@,
            CustomError::InvalidPoolAuthority => "Pool authority is invalid"@,
            CustomError::InvalidTokenMint => "Input token mint account is not valid"@,
            CustomError::InvalidTokenAccount => "Input token account is not valid"@,
            CustomError::InvalidCloseAuthority => "Token account has a close authority"@,
            CustomError::InvalidFreezeAuthority => "Pool token mint has a freeze authority"@,
            CustomError::InvalidDelegate => "Token account has a delegate"@,
            CustomError::InvalidSigner => "Input account must be signer"@,
            CustomError::InvalidStakeOwner => "Invalid stake user owner"@,
            CustomError::InsufficientFunds => "Insufficient funds"@,
            CustomError::TokenTransferFailed => "Token transfer failed"@,
            CustomError::TokenMintToFailed => "Token mint to failed"@,
        }
    }

    /// The line that is logged for an operator when each error ends a
    /// command.
    pub open spec fn spec_log_message(self) -> Seq<char> {
        match self {
            CustomError::IncorrectInstruction => "Error: Incorrect program instruction"@,
            CustomError::InstructionUnpackError => "Error: Instruction unpacking is failed"@,
            CustomError::CalculationFailure => "Error: Failed calculation"@,
            CustomError::InsufficientLiquidity => "Error: Insufficient liquidity available"@,
            CustomError::InsufficientClaimAmount => "Error: No rewards to claim"@,
            CustomError::NotRentExempt => "Error: Lamport balance below rent-exempt threshold"@,
            CustomError::AlreadyInUse => "Error: Stake pool is already initialized"@,
            CustomError::InvalidAccountOwner => "Error: Input account owner is not the program address"@,
            CustomError::TokenInitializeAccountFailed => "Error: Token initialize account failed"@,
            CustomError::TokenInitializeMintFailed => "Error: Token initialize mint failed"@,
            CustomError::InvalidPoolAuthority => "Error: Pool authority is invalid"@,
            CustomError::InvalidTokenMint => "Error: Input token mint account is not valid"@,
            CustomError::InvalidTokenAccount => "Error: Input token account is not valid"@,
            CustomError::InvalidCloseAuthority => "Error: Token account has a close authority"@,
            CustomError::InvalidFreezeAuthority => "Error: Pool token mint has a freeze authority"@,
            CustomError::InvalidDelegate => "Error: Token account has a delegate"@,
            CustomError::InvalidSigner => "Error: Ivanlid signer account provided"@,
            CustomError::InvalidStakeOwner => "Error: Invalid stake user owner"@,
            CustomError::InsufficientFunds => "Error: Insufficient funds"@,
            CustomError::TokenTransferFailed => "Error: Token transfer failed"@,
            CustomError::TokenMintToFailed => "Error: Token mint to failed"@,
        }
    }

    /// The error's stable numeric code.
    pub fn code(&self) -> (code: u32)
        ensures
            code == self.spec_code(),
            code < 21,
    {
        match self {
            CustomError::IncorrectInstruction => 0,
            CustomError::InstructionUnpackError => 1,
            CustomError::CalculationFailure => 2,
            CustomError::InsufficientLiquidity => 3,
            CustomError::InsufficientClaimAmount => 4,
            CustomError::NotRentExempt => 5,
            CustomError::AlreadyInUse => 6,
            CustomError::InvalidAccountOwner => 7,
            CustomError::TokenInitializeAccountFailed => 8,
            CustomError::TokenInitializeMintFailed => 9,
            CustomError::InvalidPoolAuthority => 10,
            CustomError::InvalidTokenMint => 11,
            CustomError::InvalidTokenAccount => 12,
            CustomError::InvalidCloseAuthority => 13,
            CustomError::InvalidFreezeAuthority => 14,
            CustomError::InvalidDelegate => 15,
            CustomError::InvalidSigner => 16,
            CustomError::InvalidStakeOwner => 17,
            CustomError::InsufficientFunds => 18,
            CustomError::TokenTransferFailed => 19,
            CustomError::TokenMintToFailed => 20,
        }
    }

    /// The error with the given code, if there is one.
    pub fn from_code(code: u32) -> (error: Option<CustomError>)
        ensures
            error is Some <==> code < 21,
            error matches Some(e) ==> e.spec_code() == code,
    {
        match code {
            0 => Some(CustomError::IncorrectInstruction),
            1 => Some(CustomError::InstructionUnpackError),
            2 => Some(CustomError::CalculationFailure),
            3 => Some(CustomError::InsufficientLiquidity),
            4 => Some(CustomError::InsufficientClaimAmount),
            5 => Some(CustomError::NotRentExempt),
            6 => Some(CustomError::AlreadyInUse),
            7 => Some(CustomError::InvalidAccountOwner),
            8 => Some(CustomError::TokenInitializeAccountFailed),
            9 => Some(CustomError::TokenInitializeMintFailed),
            10 => Some(CustomError::InvalidPoolAuthority),
            11 => Some(CustomError::InvalidTokenMint),
            12 => Some(CustomError::InvalidTokenAccount),
            13 => Some(CustomError::InvalidCloseAuthority),
            14 => Some(CustomError::InvalidFreezeAuthority),
            15 => Some(CustomError::InvalidDelegate),
            16 => Some(CustomError::InvalidSigner),
            17 => Some(CustomError::InvalidStakeOwner),
            18 => Some(CustomError::InsufficientFunds),
            19 => Some(CustomError::TokenTransferFailed),
            20 => Some(CustomError::TokenMintToFailed),
            _ => None,
        }
    }

    /// The name under which the host reports these errors.
    pub fn type_of() -> (name: &'static str)
        ensures
            name@ == "Reward pool error"@,
    {
        "Reward pool error"
    }

    /// The text that describes the error.
    pub fn message(&self) -> (text: &'static str)
        ensures
            text@ == self.spec_message(),
    {
        match self {
            CustomError::IncorrectInstruction => "Incorrect program instruction",
            CustomError::InstructionUnpackError => "Instruction unpack is failed",
            CustomError::CalculationFailure => "CalculationFailure",
            CustomError::InsufficientLiquidity => "Insufficient liquidity available",
            CustomError::InsufficientClaimAmount => "Insufficient claim amount",
            CustomError::NotRentExempt => "Lamport balance below rent-exempt threshold",
            CustomError::AlreadyInUse => "Stake pool is already initialized",
            CustomError::InvalidAccountOwner => "Input account owner is not the program address",
            CustomError::TokenInitializeAccountFailed => "Token initialize account failed",
            CustomError::TokenInitializeMintFailed => "Token initialize mint failed",
            CustomError::InvalidPoolAuthority => "Pool authority is invalid",
            CustomError::InvalidTokenMint => "Input token mint account is not valid",
            CustomError::InvalidTokenAccount => "Input token account is not valid",
            CustomError::InvalidCloseAuthority => "Token account has a close authority",
            CustomError::InvalidFreezeAuthority => "Pool token mint has a freeze authority",
            CustomError::InvalidDelegate => "Token account has a delegate",
            CustomError::InvalidSigner => "Input account must be signer",
            CustomError::InvalidStakeOwner => "Invalid stake user owner",
            CustomError::InsufficientFunds => "Insufficient funds",
            CustomError::TokenTransferFailed => "Token transfer failed",
            CustomError::TokenMintToFailed => "Token mint to failed",
        }
    }

    /// The line to log for an operator when the error ends a command.
    pub fn log_message(&self) -> (line: &'static str)
        ensures
            line@ == self.spec_log_message(),
    {
        match self {
            CustomError::IncorrectInstruction => "Error: Incorrect program instruction",
            CustomError::InstructionUnpackError => "Error: Instruction unpacking is failed",
            CustomError::CalculationFailure => "Error: Failed calculation",
            CustomError::InsufficientLiquidity => "Error: Insufficient liquidity available",
            CustomError::InsufficientClaimAmount => "Error: No rewards to claim",
            CustomError::NotRentExempt => "Error: Lamport balance below rent-exempt threshold",
            CustomError::AlreadyInUse => "Error: Stake pool is already initialized",
            CustomError::InvalidAccountOwner => "Error: Input account owner is not the program address",
            CustomError::TokenInitializeAccountFailed => "Error: Token initialize account failed",
            CustomError::TokenInitializeMintFailed => "Error: Token initialize mint failed",
            CustomError::InvalidPoolAuthority => "Error: Pool authority is invalid",
            CustomError::InvalidTokenMint => "Error: Input token mint account is not valid",
            CustomError::InvalidTokenAccount => "Error: Input token account is not valid",
            CustomError::InvalidCloseAuthority => "Error: Token account has a close authority",
            CustomError::InvalidFreezeAuthority => "Error: Pool token mint has a freeze authority",
            CustomError::InvalidDelegate => "Error: Token account has a delegate",
            CustomError::InvalidSigner => "Error: Ivanlid signer account provided",
            CustomError::InvalidStakeOwner => "Error: Invalid stake user owner",
            CustomError::InsufficientFunds => "Error: Insufficient funds",
            CustomError::TokenTransferFailed => "Error: Token transfer failed",
            CustomError::TokenMintToFailed => "Error: Token mint to failed",
        }
    }
}

/// Two errors with the same code are the same error.
pub proof fn lemma_code_injective(a: CustomError, b: CustomError)
    requires
        a.spec_code() == b.spec_code(),
    ensures
        a == b,
{
}

impl From<CustomError> for ProgramError {
    fn from(e: CustomError) -> (r: ProgramError) {
        ProgramError::Custom(e)
    }
}

impl vstd::std_specs::convert::FromSpecImpl<CustomError> for ProgramError {
    open spec fn obeys_from_spec() -> bool {
        true
    }

    open spec fn from_spec(e: CustomError) -> ProgramError {
        ProgramError::Custom(e)
    }
}

} // verus!
