use reward_pool::address::{validate_authority, Address};
use reward_pool::error::{CustomError, ProgramError};
use reward_pool::instruction::{AccountMeta, Instruction};
use reward_pool::sysvar::RENT_ID;
use reward_pool::token::{
    spl_token_init_account, spl_token_init_mint, spl_token_mint_to, spl_token_transfer,
    unpack_mint_data, unpack_token_account_data, AccountRef, AuthoritySeeds, Mint, TokenAccount,
    TokenInitializeAccountParams, TokenInitializeMintParams, TokenMintToParams,
    TokenTransferParams, REWARD_DECIMALS,
};
use solana_program::program_option::COption;
use solana_program::program_pack::Pack as LedgerPack;
use solana_program::pubkey::Pubkey;

fn custom(error: CustomError) -> ProgramError {
    ProgramError::Custom(error)
}

fn key(n: u8) -> Address {
    Address::new_from_array([n; 32])
}

fn token_program() -> Address {
    Address::new_from_array(spl_token::id().to_bytes())
}

fn at(index: usize, key: Address) -> AccountRef {
    AccountRef { index, key }
}

fn pubkey(address: &Address) -> Pubkey {
    Pubkey::new_from_array(address.to_bytes())
}

fn converted(ix: &solana_program::instruction::Instruction) -> Instruction {
    let mut accounts = Vec::new();
    for meta in ix.accounts.iter() {
        accounts.push(AccountMeta {
            pubkey: Address::new_from_array(meta.pubkey.to_bytes()),
            is_signer: meta.is_signer,
            is_writable: meta.is_writable,
        });
    }
    Instruction {
        program_id: Address::new_from_array(ix.program_id.to_bytes()),
        accounts,
        data: ix.data.clone(),
    }
}

fn packed_token_account(mint: &Address, owner: &Address, amount: u64) -> Vec<u8> {
    let account = spl_token::state::Account {
        mint: pubkey(mint),
        owner: pubkey(owner),
        amount,
        delegate: COption::None,
        state: spl_token::state::AccountState::Initialized,
        is_native: COption::None,
        delegated_amount: 0,
        close_authority: COption::None,
    };
    let mut data = vec![0u8; 165];
    LedgerPack::pack(account, &mut data).unwrap();
    data
}

#[test]
fn transfer_call_is_the_ledgers_request() {
    let params = TokenTransferParams {
        source: at(4, key(1)),
        destination: at(5, key(2)),
        amount: 10_000_000_000,
        authority: at(2, key(3)),
        authority_signer_seeds: None,
        token_program: at(7, token_program()),
    };
    let call = spl_token_transfer(params).unwrap();
    assert_eq!(
        call.instruction,
        Instruction {
            program_id: token_program(),
            accounts: vec![
                AccountMeta { pubkey: key(1), is_signer: false, is_writable: true },
                AccountMeta { pubkey: key(2), is_signer: false, is_writable: true },
                AccountMeta { pubkey: key(3), is_signer: true, is_writable: false },
            ],
            data: vec![3u8, 0, 228, 11, 84, 2, 0, 0, 0],
        }
    );
    let outside = spl_token::instruction::transfer(
        &spl_token::id(),
        &pubkey(&key(1)),
        &pubkey(&key(2)),
        &pubkey(&key(3)),
        &[],
        10_000_000_000,
    )
    .unwrap();
    assert_eq!(call.instruction, converted(&outside));
    assert_eq!(call.accounts, vec![4usize, 5, 2, 7]);
    assert_eq!(call.signer_seeds, None);
    assert!(!call.is_signed());
    assert_eq!(call.failure, CustomError::TokenTransferFailed);
    assert_eq!(call.failure_error(), custom(CustomError::TokenTransferFailed));
}

#[test]
fn a_signed_transfer_carries_the_seeds() {
    let seeds = AuthoritySeeds { pool: key(8), bump_seed: 254 };
    let params = TokenTransferParams {
        source: at(4, key(1)),
        destination: at(5, key(2)),
        amount: 1,
        authority: at(2, key(3)),
        authority_signer_seeds: Some(seeds),
        token_program: at(7, token_program()),
    };
    let call = spl_token_transfer(params).unwrap();
    assert_eq!(call.signer_seeds, Some(seeds));
    assert!(call.is_signed());
    assert_eq!(call.instruction.data, vec![3u8, 1, 0, 0, 0, 0, 0, 0, 0]);
}

#[test]
fn mint_to_call_is_the_ledgers_request() {
    let seeds = AuthoritySeeds { pool: key(8), bump_seed: 3 };
    let params = TokenMintToParams {
        mint: at(4, key(1)),
        destination: at(5, key(2)),
        amount: 10_000_000,
        authority: at(3, key(3)),
        authority_signer_seeds: Some(seeds),
        token_program: at(7, token_program()),
    };
    let call = spl_token_mint_to(params).unwrap();
    assert_eq!(
        call.instruction,
        Instruction {
            program_id: token_program(),
            accounts: vec![
                AccountMeta { pubkey: key(1), is_signer: false, is_writable: true },
                AccountMeta { pubkey: key(2), is_signer: false, is_writable: true },
                AccountMeta { pubkey: key(3), is_signer: true, is_writable: false },
            ],
            data: vec![7u8, 128, 150, 152, 0, 0, 0, 0, 0],
        }
    );
    let outside = spl_token::instruction::mint_to(
        &spl_token::id(),
        &pubkey(&key(1)),
        &pubkey(&key(2)),
        &pubkey(&key(3)),
        &[],
        10_000_000,
    )
    .unwrap();
    assert_eq!(call.instruction, converted(&outside));
    assert_eq!(call.accounts, vec![4usize, 5, 3, 7]);
    assert_eq!(call.signer_seeds, Some(seeds));
    assert_eq!(call.failure, CustomError::TokenMintToFailed);
}

#[test]
fn init_account_call_is_the_ledgers_request() {
    let params = TokenInitializeAccountParams {
        account: at(3, key(1)),
        mint: at(2, key(2)),
        owner: at(1, key(3)),
        rent: at(5, Address::new_from_array(RENT_ID)),
        token_program: at(6, token_program()),
    };
    let call = spl_token_init_account(params).unwrap();
    assert_eq!(
        call.instruction,
        Instruction {
            program_id: token_program(),
            accounts: vec![
                AccountMeta { pubkey: key(1), is_signer: false, is_writable: true },
                AccountMeta { pubkey: key(2), is_signer: false, is_writable: false },
                AccountMeta { pubkey: key(3), is_signer: false, is_writable: false },
                AccountMeta {
                    pubkey: Address::new_from_array(RENT_ID),
                    is_signer: false,
                    is_writable: false,
                },
            ],
            data: vec![1u8],
        }
    );
    let outside = spl_token::instruction::initialize_account(
        &spl_token::id(),
        &pubkey(&key(1)),
        &pubkey(&key(2)),
        &pubkey(&key(3)),
    )
    .unwrap();
    assert_eq!(call.instruction, converted(&outside));
    assert_eq!(call.accounts, vec![3usize, 2, 1, 5, 6]);
    assert_eq!(call.signer_seeds, None);
    assert_eq!(call.failure, CustomError::TokenInitializeAccountFailed);
}

#[test]
fn init_mint_call_is_the_ledgers_request() {
    let params = TokenInitializeMintParams {
        mint: at(4, key(1)),
        rent: at(5, Address::new_from_array(RENT_ID)),
        authority: key(3),
        decimals: REWARD_DECIMALS,
        token_program: at(6, token_program()),
    };
    let call = spl_token_init_mint(params).unwrap();
    let mut data = vec![0u8, 9];
    data.extend_from_slice(&[3u8; 32]);
    data.push(0);
    assert_eq!(
        call.instruction,
        Instruction {
            program_id: token_program(),
            accounts: vec![
                AccountMeta { pubkey: key(1), is_signer: false, is_writable: true },
                AccountMeta {
                    pubkey: Address::new_from_array(RENT_ID),
                    is_signer: false,
                    is_writable: false,
                },
            ],
            data,
        }
    );
    let outside = spl_token::instruction::initialize_mint(
        &spl_token::id(),
        &pubkey(&key(1)),
        &pubkey(&key(3)),
        None,
        9,
    )
    .unwrap();
    assert_eq!(call.instruction, converted(&outside));
    assert_eq!(call.accounts, vec![4usize, 5, 6]);
    assert_eq!(call.failure, CustomError::TokenInitializeMintFailed);
    assert_eq!(REWARD_DECIMALS, 9);
}

#[test]
fn another_program_than_the_token_program_is_refused() {
    let wrong = key(77);
    assert_eq!(
        spl_token_transfer(TokenTransferParams {
            source: at(4, key(1)),
            destination: at(5, key(2)),
            amount: 1,
            authority: at(2, key(3)),
            authority_signer_seeds: None,
            token_program: at(7, wrong),
        }),
        Err(ProgramError::IncorrectProgramId)
    );
    assert_eq!(
        spl_token_mint_to(TokenMintToParams {
            mint: at(4, key(1)),
            destination: at(5, key(2)),
            amount: 1,
            authority: at(2, key(3)),
            authority_signer_seeds: None,
            token_program: at(7, wrong),
        }),
        Err(ProgramError::IncorrectProgramId)
    );
    assert_eq!(
        spl_token_init_account(TokenInitializeAccountParams {
            account: at(3, key(1)),
            mint: at(2, key(2)),
            owner: at(1, key(3)),
            rent: at(5, key(4)),
            token_program: at(6, wrong),
        }),
        Err(ProgramError::IncorrectProgramId)
    );
    assert_eq!(
        spl_token_init_mint(TokenInitializeMintParams {
            mint: at(4, key(1)),
            rent: at(5, key(4)),
            authority: key(3),
            decimals: 9,
            token_program: at(6, wrong),
        }),
        Err(ProgramError::IncorrectProgramId)
    );
}

#[test]
fn a_token_account_is_read_from_its_bytes() {
    let data = packed_token_account(&key(1), &key(2), 10_000_000_000);
    assert_eq!(
        unpack_token_account_data(&token_program(), &data, &token_program()),
        Ok(TokenAccount { mint: key(1), owner: key(2), amount: 10_000_000_000 })
    );
    // The bytes are not handed back as they are: the fields sit at their offsets.
    assert_eq!(&data[0..32], &[1u8; 32]);
    assert_eq!(&data[32..64], &[2u8; 32]);
    assert_eq!(&data[64..72], &10_000_000_000u64.to_le_bytes());
}

#[test]
fn a_token_account_of_another_program_is_refused() {
    let data = packed_token_account(&key(1), &key(2), 5);
    assert_eq!(
        unpack_token_account_data(&key(9), &data, &token_program()),
        Err(custom(CustomError::InvalidAccountOwner))
    );
}

#[test]
fn bytes_that_hold_no_token_account_are_refused() {
    assert_eq!(
        unpack_token_account_data(&token_program(), &[0u8; 165], &token_program()),
        Err(custom(CustomError::InvalidTokenAccount))
    );
    let data = packed_token_account(&key(1), &key(2), 5);
    assert_eq!(
        unpack_token_account_data(&token_program(), &data[..164], &token_program()),
        Err(custom(CustomError::InvalidTokenAccount))
    );
    let mut broken = data.clone();
    broken[108] = 7;
    assert_eq!(
        unpack_token_account_data(&token_program(), &broken, &token_program()),
        Err(custom(CustomError::InvalidTokenAccount))
    );
    assert_eq!(
        unpack_token_account_data(&token_program(), &[], &token_program()),
        Err(custom(CustomError::InvalidTokenAccount))
    );
}

#[test]
fn a_mint_is_read_from_its_bytes() {
    let mint = spl_token::state::Mint {
        mint_authority: COption::Some(pubkey(&key(5))),
        supply: 1_000,
        decimals: 9,
        is_initialized: true,
        freeze_authority: COption::None,
    };
    let mut data = vec![0u8; 82];
    LedgerPack::pack(mint, &mut data).unwrap();
    assert_eq!(
        unpack_mint_data(&token_program(), &data, &token_program()),
        Ok(Mint {
            mint_authority: Some(key(5)),
            supply: 1_000,
            decimals: 9,
            is_initialized: true,
            freeze_authority: None,
        })
    );
    assert_eq!(
        unpack_mint_data(&key(9), &data, &token_program()),
        Err(custom(CustomError::InvalidAccountOwner))
    );
    assert_eq!(
        unpack_mint_data(&token_program(), &[0u8; 82], &token_program()),
        Err(custom(CustomError::InvalidTokenMint))
    );
    assert_eq!(
        unpack_mint_data(&token_program(), &data[..81], &token_program()),
        Err(custom(CustomError::InvalidTokenMint))
    );
}

#[test]
fn the_derived_authority_is_accepted_and_no_other() {
    let program = key(3);
    let pool = key(40);
    let (authority, bump) = Pubkey::find_program_address(&[&pool.to_bytes()[..]], &pubkey(&program));
    let authority = Address::new_from_array(authority.to_bytes());
    assert_eq!(validate_authority(&authority, &pool, bump, &program), Ok(()));
    // It is not one of the inputs handed back.
    assert_ne!(authority, pool);
    assert_ne!(authority, program);
    assert_eq!(
        validate_authority(&pool, &pool, bump, &program),
        Err(custom(CustomError::InvalidPoolAuthority))
    );
    assert_eq!(
        validate_authority(&key(41), &pool, bump, &program),
        Err(custom(CustomError::InvalidPoolAuthority))
    );
    // Another pool or another program derives another authority.
    assert_ne!(validate_authority(&authority, &key(42), bump, &program), Ok(()));
    assert_ne!(validate_authority(&authority, &pool, bump, &key(4)), Ok(()));
}

#[test]
fn the_derivation_agrees_with_the_ledger_for_every_seed() {
    let program = key(3);
    let pool = key(40);
    let mut refused = 0;
    for bump in 0..=255u8 {
        let outside =
            Pubkey::create_program_address(&[&pool.to_bytes()[..], &[bump]], &pubkey(&program));
        match outside {
            Ok(derived) => {
                let derived = Address::new_from_array(derived.to_bytes());
                assert_eq!(validate_authority(&derived, &pool, bump, &program), Ok(()));
                assert_eq!(
                    validate_authority(&key(1), &pool, bump, &program),
                    Err(custom(CustomError::InvalidPoolAuthority))
                );
            }
            Err(_) => {
                refused += 1;
                assert_eq!(
                    validate_authority(&key(1), &pool, bump, &program),
                    Err(ProgramError::InvalidSeeds)
                );
            }
        }
    }
    // About half of all hashes are points of the curve.
    assert!(refused > 0);
    assert!(refused < 256);
}
