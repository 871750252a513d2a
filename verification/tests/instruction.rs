use reward_pool::address::Address;
use reward_pool::error::{CustomError, ProgramError};
use reward_pool::instruction::{
    claim, create_stake_pool, create_stake_user, refresh, stake, unpack_u64, unpack_u8, unstake,
    AccountMeta, InitData, Instruction, InstructionType, StakeData,
};
use reward_pool::sysvar::{CLOCK_ID, RENT_ID};
use reward_pool::token::TOKEN_PROGRAM_ID;

fn custom(error: CustomError) -> ProgramError {
    ProgramError::Custom(error)
}

fn key(n: u8) -> Address {
    Address::new_from_array([n; 32])
}

fn writable(address: Address, is_signer: bool) -> AccountMeta {
    AccountMeta { pubkey: address, is_signer, is_writable: true }
}

fn readonly(address: Address, is_signer: bool) -> AccountMeta {
    AccountMeta { pubkey: address, is_signer, is_writable: false }
}

#[test]
fn the_ids_are_those_of_the_ledger() {
    assert_eq!(RENT_ID, solana_program::sysvar::rent::id().to_bytes());
    assert_eq!(CLOCK_ID, solana_program::sysvar::clock::id().to_bytes());
    assert_eq!(TOKEN_PROGRAM_ID, spl_token::id().to_bytes());
    assert_eq!(
        solana_program::sysvar::rent::id().to_string(),
        "SysvarRent111111111111111111111111111111111"
    );
    assert_eq!(
        solana_program::sysvar::clock::id().to_string(),
        "SysvarC1ock11111111111111111111111111111111"
    );
    assert_eq!(spl_token::id().to_string(), "TokenkegQfeZyiNwAJbNbGKPFXCWuBvf9Ss623VQ5DA");
}

#[test]
fn the_program_id_is_the_declared_one() {
    let declared = solana_program::pubkey::Pubkey::new_from_array(reward_pool::ID);
    assert_eq!(declared.to_string(), "DEH6htv2rzSkpC3aFK7VKiCiPrpoeQ4CXQboAKPsPgRL");
    assert_eq!(reward_pool::id().to_bytes(), reward_pool::ID);
    assert!(reward_pool::check_id(&reward_pool::id()));
    assert!(!reward_pool::check_id(&key(1)));
}

#[test]
fn pack_writes_tag_and_fields() {
    let create = InstructionType::CreatePool(InitData {
        bump_seed: 255,
        reward_numerator: 1,
        reward_denominator: 1_000,
    });
    assert_eq!(
        create.pack(),
        vec![1u8, 255, 1, 0, 0, 0, 0, 0, 0, 0, 232, 3, 0, 0, 0, 0, 0, 0]
    );
    assert_eq!(InstructionType::CreateStakeUser.pack(), vec![2u8]);
    assert_eq!(
        InstructionType::Stake(StakeData { amount: 10_000_000_000 }).pack(),
        vec![3u8, 0, 228, 11, 84, 2, 0, 0, 0]
    );
    assert_eq!(
        InstructionType::Unstake(StakeData { amount: u64::MAX }).pack(),
        vec![4u8, 255, 255, 255, 255, 255, 255, 255, 255]
    );
    assert_eq!(InstructionType::Claim.pack(), vec![5u8]);
    assert_eq!(InstructionType::Refresh.pack(), vec![6u8]);
}

#[test]
fn unpack_reads_every_command() {
    assert_eq!(
        InstructionType::unpack(&[1, 7, 2, 0, 0, 0, 0, 0, 0, 0, 3, 0, 0, 0, 0, 0, 0, 0]),
        Ok(InstructionType::CreatePool(InitData {
            bump_seed: 7,
            reward_numerator: 2,
            reward_denominator: 3,
        }))
    );
    assert_eq!(InstructionType::unpack(&[2]), Ok(InstructionType::CreateStakeUser));
    assert_eq!(
        InstructionType::unpack(&[3, 1, 1, 0, 0, 0, 0, 0, 0]),
        Ok(InstructionType::Stake(StakeData { amount: 257 }))
    );
    assert_eq!(
        InstructionType::unpack(&[4, 0, 0, 0, 0, 0, 0, 0, 128]),
        Ok(InstructionType::Unstake(StakeData { amount: 1 << 63 }))
    );
    assert_eq!(InstructionType::unpack(&[5]), Ok(InstructionType::Claim));
    assert_eq!(InstructionType::unpack(&[6]), Ok(InstructionType::Refresh));
}

#[test]
fn unpack_round_trips_pack() {
    let commands = [
        InstructionType::CreatePool(InitData {
            bump_seed: 0,
            reward_numerator: u64::MAX,
            reward_denominator: 0,
        }),
        InstructionType::CreatePool(InitData {
            bump_seed: 254,
            reward_numerator: 0x0102_0304_0506_0708,
            reward_denominator: 86_400,
        }),
        InstructionType::CreateStakeUser,
        InstructionType::Stake(StakeData { amount: 0 }),
        InstructionType::Stake(StakeData { amount: u64::MAX }),
        InstructionType::Unstake(StakeData { amount: 1 }),
        InstructionType::Claim,
        InstructionType::Refresh,
    ];
    for command in commands {
        let bytes = command.pack();
        assert_eq!(InstructionType::unpack(&bytes), Ok(command));
        let mut longer = bytes.clone();
        longer.extend_from_slice(&[9, 9, 9]);
        assert_eq!(InstructionType::unpack(&longer), Ok(command));
    }
}

#[test]
fn unpack_refuses_a_missing_or_unknown_tag() {
    assert_eq!(InstructionType::unpack(&[]), Err(custom(CustomError::IncorrectInstruction)));
    assert_eq!(InstructionType::unpack(&[0]), Err(custom(CustomError::IncorrectInstruction)));
    assert_eq!(InstructionType::unpack(&[7]), Err(custom(CustomError::IncorrectInstruction)));
    assert_eq!(
        InstructionType::unpack(&[255, 1, 2, 3, 4, 5, 6, 7, 8, 9]),
        Err(custom(CustomError::IncorrectInstruction))
    );
}

#[test]
fn unpack_refuses_a_short_payload() {
    assert_eq!(InstructionType::unpack(&[1]), Err(custom(CustomError::InstructionUnpackError)));
    assert_eq!(
        InstructionType::unpack(&[1, 7, 2, 0, 0, 0, 0, 0, 0, 0, 3, 0, 0, 0, 0, 0, 0]),
        Err(custom(CustomError::InstructionUnpackError))
    );
    assert_eq!(
        InstructionType::unpack(&[1, 7, 2, 0, 0, 0, 0, 0, 0]),
        Err(custom(CustomError::InstructionUnpackError))
    );
    assert_eq!(InstructionType::unpack(&[3]), Err(custom(CustomError::InstructionUnpackError)));
    assert_eq!(
        InstructionType::unpack(&[3, 1, 2, 3, 4, 5, 6, 7]),
        Err(custom(CustomError::InstructionUnpackError))
    );
    assert_eq!(
        InstructionType::unpack(&[4, 1, 2, 3, 4, 5, 6, 7]),
        Err(custom(CustomError::InstructionUnpackError))
    );
}

#[test]
fn unpack_u8_takes_one_byte() {
    assert_eq!(unpack_u8(&[]), Err(custom(CustomError::InstructionUnpackError)));
    let bytes = [5u8, 6, 7];
    let (value, rest) = unpack_u8(&bytes).unwrap();
    assert_eq!(value, 5);
    assert_eq!(rest, &[6u8, 7][..]);
    let (value, rest) = unpack_u8(&[9]).unwrap();
    assert_eq!(value, 9);
    assert!(rest.is_empty());
}

#[test]
fn unpack_u64_takes_eight_bytes() {
    assert_eq!(unpack_u64(&[1, 2, 3, 4, 5, 6, 7]), Err(custom(CustomError::InstructionUnpackError)));
    assert_eq!(unpack_u64(&[]), Err(custom(CustomError::InstructionUnpackError)));
    let bytes = [232u8, 3, 0, 0, 0, 0, 0, 0, 42];
    let (value, rest) = unpack_u64(&bytes).unwrap();
    assert_eq!(value, 1_000);
    assert_eq!(rest, &[42u8][..]);
}

#[test]
fn account_metas_say_how_an_account_is_used() {
    assert_eq!(AccountMeta::new(key(1), true), writable(key(1), true));
    assert_eq!(AccountMeta::new(key(1), false), writable(key(1), false));
    assert_eq!(AccountMeta::new_readonly(key(2), true), readonly(key(2), true));
    assert_eq!(AccountMeta::new_from([3u8; 32], false, true), writable(key(3), false));
}

#[test]
fn create_stake_pool_request() {
    let init = InitData { bump_seed: 254, reward_numerator: 1, reward_denominator: 1_000 };
    let request = create_stake_pool(key(9), key(1), key(2), key(3), key(4), key(5), init).unwrap();
    assert_eq!(
        request,
        Instruction {
            program_id: key(9),
            accounts: vec![
                writable(key(1), true),
                readonly(key(2), false),
                readonly(key(3), false),
                writable(key(4), false),
                writable(key(5), false),
                readonly(Address::new_from_array(RENT_ID), false),
                readonly(Address::new_from_array(TOKEN_PROGRAM_ID), false),
            ],
            data: vec![1u8, 254, 1, 0, 0, 0, 0, 0, 0, 0, 232, 3, 0, 0, 0, 0, 0, 0],
        }
    );
    assert_eq!(request.accounts[5].pubkey.to_bytes(), solana_program::sysvar::rent::id().to_bytes());
    assert_eq!(request.accounts[6].pubkey.to_bytes(), spl_token::id().to_bytes());
}

#[test]
fn create_stake_user_request() {
    let request = create_stake_user(key(9), key(1), key(2), key(3)).unwrap();
    assert_eq!(
        request,
        Instruction {
            program_id: key(9),
            accounts: vec![
                readonly(key(1), false),
                writable(key(2), false),
                writable(key(3), true),
                readonly(Address::new_from_array(RENT_ID), false),
            ],
            data: vec![2u8],
        }
    );
}

#[test]
fn stake_request() {
    let request = stake(key(9), key(1), key(2), key(3), key(4), key(5), key(6), 257).unwrap();
    assert_eq!(
        request,
        Instruction {
            program_id: key(9),
            accounts: vec![
                readonly(key(1), false),
                writable(key(2), false),
                readonly(key(3), true),
                readonly(key(4), true),
                writable(key(5), false),
                writable(key(6), false),
                readonly(Address::new_from_array(CLOCK_ID), false),
                readonly(Address::new_from_array(TOKEN_PROGRAM_ID), false),
            ],
            data: vec![3u8, 1, 1, 0, 0, 0, 0, 0, 0],
        }
    );
    assert_eq!(request.accounts[6].pubkey.to_bytes(), solana_program::sysvar::clock::id().to_bytes());
}

#[test]
fn unstake_request() {
    let request = unstake(key(9), key(1), key(2), key(3), key(4), key(5), key(6), 2).unwrap();
    assert_eq!(
        request,
        Instruction {
            program_id: key(9),
            accounts: vec![
                writable(key(1), false),
                writable(key(2), false),
                readonly(key(3), false),
                readonly(key(4), true),
                writable(key(5), false),
                writable(key(6), false),
                readonly(Address::new_from_array(CLOCK_ID), false),
                readonly(Address::new_from_array(TOKEN_PROGRAM_ID), false),
            ],
            data: vec![4u8, 2, 0, 0, 0, 0, 0, 0, 0],
        }
    );
}

#[test]
fn claim_request() {
    let request = claim(key(9), key(1), key(2), key(3), key(4), key(5)).unwrap();
    assert_eq!(
        request,
        Instruction {
            program_id: key(9),
            accounts: vec![
                readonly(key(1), false),
                writable(key(2), false),
                readonly(key(3), false),
                writable(key(4), false),
                writable(key(5), false),
                readonly(Address::new_from_array(CLOCK_ID), false),
                readonly(Address::new_from_array(TOKEN_PROGRAM_ID), false),
            ],
            data: vec![5u8],
        }
    );
}

#[test]
fn refresh_request() {
    let request = refresh(key(9), key(1), vec![key(2), key(3), key(4)]).unwrap();
    assert_eq!(
        request,
        Instruction {
            program_id: key(9),
            accounts: vec![
                readonly(key(1), false),
                readonly(Address::new_from_array(CLOCK_ID), false),
                writable(key(2), false),
                writable(key(3), false),
                writable(key(4), false),
            ],
            data: vec![6u8],
        }
    );
    let empty = refresh(key(9), key(1), Vec::new()).unwrap();
    assert_eq!(empty.accounts.len(), 2);
}

#[test]
fn requests_decode_to_their_command() {
    let request = stake(key(9), key(1), key(2), key(3), key(4), key(5), key(6), 77).unwrap();
    assert_eq!(
        InstructionType::unpack(&request.data),
        Ok(InstructionType::Stake(StakeData { amount: 77 }))
    );
    let request = claim(key(9), key(1), key(2), key(3), key(4), key(5)).unwrap();
    assert_eq!(InstructionType::unpack(&request.data), Ok(InstructionType::Claim));
}
