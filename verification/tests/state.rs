use reward_pool::address::Address;
use reward_pool::error::ProgramError;
use reward_pool::state::{pack_bool, unpack_bool, IsInitialized, Pack, Pool, StakeUser};

#[test]
fn test_pool_packing() {
    let is_initialized = true;
    let bump_seed: u8 = 255;
    let stake_token_mint_key_raw = [1u8; 32];
    let reserved_key_raw = [2u8; 32];
    let reward_mint_key_raw = [3u8; 32];
    let stake_token_mint = Address::new_from_array(stake_token_mint_key_raw);
    let reserved = Address::new_from_array(reserved_key_raw);
    let reward_mint = Address::new_from_array(reward_mint_key_raw);
    let reward_numerator: u64 = 1;
    let reward_denominator: u64 = 1_000;

    let pool = Pool {
        is_initialized,
        bump_seed,
        stake_token_mint,
        reserved,
        reward_mint,
        reward_numerator,
        reward_denominator,
    };

    let mut packed = [0u8; Pool::LEN];
    Pool::pack_into_slice(&pool, &mut packed);
    let unpacked = Pool::unpack(&packed).unwrap();
    assert_eq!(pool, unpacked);
}

#[test]
fn test_stake_user_packing() {
    let is_initialized = true;
    let owner_key_raw = [1u8; 32];
    let pool_pubkey_raw = [2u8; 32];
    let owner = Address::new_from_array(owner_key_raw);
    let pool_pubkey = Address::new_from_array(pool_pubkey_raw);
    let stake_amount: u64 = 10_000_000_000; // Decimal = 9
    let reward_owed: u64 = 100_000_000;
    let last_update: i64 = 100;

    let stake_user = StakeUser {
        is_initialized,
        owner,
        pool_pubkey,
        stake_amount,
        reward_owed,
        last_update,
    };

    let mut packed = [0u8; StakeUser::LEN];
    StakeUser::pack_into_slice(&stake_user, &mut packed);
    let unpacked = StakeUser::unpack(&packed).unwrap();
    assert_eq!(stake_user, unpacked);
}

#[test]
fn pool_layout_is_fixed() {
    let pool = Pool {
        is_initialized: true,
        bump_seed: 255,
        stake_token_mint: Address::new_from_array([1u8; 32]),
        reserved: Address::new_from_array([2u8; 32]),
        reward_mint: Address::new_from_array([3u8; 32]),
        reward_numerator: 1,
        reward_denominator: 1_000,
    };
    let mut packed = [9u8; 114];
    pool.pack_into_slice(&mut packed);
    let mut expected = vec![1u8, 255];
    expected.extend_from_slice(&[1u8; 32]);
    expected.extend_from_slice(&[2u8; 32]);
    expected.extend_from_slice(&[3u8; 32]);
    expected.extend_from_slice(&[1, 0, 0, 0, 0, 0, 0, 0]);
    expected.extend_from_slice(&[232, 3, 0, 0, 0, 0, 0, 0]);
    assert_eq!(packed.to_vec(), expected);
    assert_eq!(Pool::LEN, 114);
    assert_eq!(Pool::get_packed_len(), 114);
    assert_eq!(reward_pool::state::POOL_SIZE, 114);
}

#[test]
fn stake_user_layout_is_fixed() {
    let user = StakeUser {
        is_initialized: true,
        owner: Address::new_from_array([1u8; 32]),
        pool_pubkey: Address::new_from_array([2u8; 32]),
        stake_amount: 10_000_000_000,
        reward_owed: 100_000_000,
        last_update: -2,
    };
    let mut packed = [9u8; 89];
    user.pack_into_slice(&mut packed);
    let mut expected = vec![1u8];
    expected.extend_from_slice(&[1u8; 32]);
    expected.extend_from_slice(&[2u8; 32]);
    expected.extend_from_slice(&10_000_000_000u64.to_le_bytes());
    expected.extend_from_slice(&100_000_000u64.to_le_bytes());
    expected.extend_from_slice(&(-2i64).to_le_bytes());
    assert_eq!(packed.to_vec(), expected);
    assert_eq!(StakeUser::LEN, 89);
    assert_eq!(StakeUser::get_packed_len(), 89);
    assert_eq!(StakeUser::unpack_from_slice(&packed), Ok(user));
}

#[test]
fn pack_into_a_longer_buffer_keeps_the_rest() {
    let user = StakeUser {
        is_initialized: false,
        owner: Address::new_from_array([4u8; 32]),
        pool_pubkey: Address::new_from_array([5u8; 32]),
        stake_amount: 6,
        reward_owed: 7,
        last_update: 8,
    };
    let mut packed = [9u8; 100];
    user.pack_into_slice(&mut packed);
    assert_eq!(&packed[89..], &[9u8; 11]);
    assert_eq!(StakeUser::unpack_from_slice(&packed), Ok(user));
}

#[test]
fn unpack_refuses_a_wrong_length() {
    assert_eq!(Pool::unpack(&[1u8; 113]), Err(ProgramError::InvalidAccountData));
    assert_eq!(Pool::unpack(&[1u8; 115]), Err(ProgramError::InvalidAccountData));
    assert_eq!(Pool::unpack_unchecked(&[0u8; 0]), Err(ProgramError::InvalidAccountData));
    assert_eq!(StakeUser::unpack(&[1u8; 88]), Err(ProgramError::InvalidAccountData));
    assert_eq!(StakeUser::unpack_unchecked(&[1u8; 90]), Err(ProgramError::InvalidAccountData));
}

#[test]
fn unpack_refuses_an_uninitialized_record() {
    assert_eq!(Pool::unpack(&[0u8; 114]), Err(ProgramError::UninitializedAccount));
    assert_eq!(StakeUser::unpack(&[0u8; 89]), Err(ProgramError::UninitializedAccount));
    assert_eq!(Pool::unpack_unchecked(&[0u8; 114]), Ok(Pool::default()));
    assert_eq!(StakeUser::unpack_unchecked(&[0u8; 89]), Ok(StakeUser::default()));
}

#[test]
fn unpack_refuses_an_impossible_flag() {
    let mut bytes = [0u8; 114];
    bytes[0] = 2;
    assert_eq!(Pool::unpack_unchecked(&bytes), Err(ProgramError::InvalidAccountData));
    assert_eq!(Pool::unpack(&bytes), Err(ProgramError::InvalidAccountData));
    let mut bytes = [0u8; 89];
    bytes[0] = 255;
    assert_eq!(StakeUser::unpack_unchecked(&bytes), Err(ProgramError::InvalidAccountData));
}

#[test]
fn pack_refuses_a_wrong_length_and_writes_nothing() {
    let pool = Pool { is_initialized: true, ..Pool::default() };
    let mut short = [7u8; 113];
    assert_eq!(Pool::pack(pool, &mut short), Err(ProgramError::InvalidAccountData));
    assert_eq!(short, [7u8; 113]);
    let mut exact = [7u8; 114];
    assert_eq!(Pool::pack(pool, &mut exact), Ok(()));
    assert_eq!(Pool::unpack(&exact), Ok(pool));
}

#[test]
fn records_round_trip_at_the_extremes() {
    let pool = Pool {
        is_initialized: true,
        bump_seed: 0,
        stake_token_mint: Address::new_from_array([255u8; 32]),
        reserved: Address::new_from_array([0u8; 32]),
        reward_mint: Address::new_from_array([128u8; 32]),
        reward_numerator: u64::MAX,
        reward_denominator: 0,
    };
    let mut packed = [0u8; 114];
    assert_eq!(Pool::pack(pool, &mut packed), Ok(()));
    assert_eq!(Pool::unpack(&packed), Ok(pool));

    for last_update in [i64::MIN, -1, 0, 1, i64::MAX] {
        let user = StakeUser {
            is_initialized: true,
            owner: Address::new_from_array([17u8; 32]),
            pool_pubkey: Address::new_from_array([34u8; 32]),
            stake_amount: u64::MAX,
            reward_owed: u64::MAX - 1,
            last_update,
        };
        let mut packed = [0u8; 89];
        assert_eq!(StakeUser::pack(user, &mut packed), Ok(()));
        assert_eq!(StakeUser::unpack(&packed), Ok(user));
    }
}

#[test]
fn flags_are_one_byte() {
    let mut byte = [9u8; 1];
    pack_bool(true, &mut byte);
    assert_eq!(byte, [1]);
    pack_bool(false, &mut byte);
    assert_eq!(byte, [0]);
    assert_eq!(unpack_bool(&[0]), Ok(false));
    assert_eq!(unpack_bool(&[1]), Ok(true));
    assert_eq!(unpack_bool(&[2]), Err(ProgramError::InvalidAccountData));
    assert_eq!(unpack_bool(&[255]), Err(ProgramError::InvalidAccountData));
}

#[test]
fn initialization_is_the_flag() {
    let mut pool = Pool::default();
    assert!(!pool.is_initialized());
    pool.is_initialized = true;
    assert!(pool.is_initialized());
    let mut user = StakeUser::default();
    assert!(!user.is_initialized());
    user.is_initialized = true;
    assert!(user.is_initialized());
}
