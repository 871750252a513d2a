//! The host's system accounts: the addresses under which commands name
//! them, and the time that the clock account shows.

use vstd::prelude::*;
use solana_program::account_info::AccountInfo;
use solana_program::clock::Clock;
use solana_program::pubkey::Pubkey;
use solana_program::sysvar::Sysvar;
use crate::address::Address;
use crate::codec::le_i64_at;
use crate::error::ProgramError;

verus! {

/// Bytes of the address of the host account that holds the rent
/// parameters, `SysvarRent111111111111111111111111111111111`.
pub const RENT_ID: [u8; 32] = [
    6, 167, 213, 23, 25, 44, 92, 81, 33, 140, 201, 76, 61, 74, 241, 127, 88, 218, 238, 8, 155, 161,
    253, 68, 227, 219, 217, 138, 0, 0, 0, 0,
];

/// Bytes of the address of the host account that holds the clock,
/// `SysvarC1ock11111111111111111111111111111111`.
pub const CLOCK_ID: [u8; 32] = [
    6, 167, 213, 23, 24, 199, 116, 201, 40, 86, 99, 152, 105, 29, 94, 182, 139, 94, 184, 163, 155,
    75, 109, 92, 115, 85, 91, 33, 0, 0, 0, 0,
];

/// Address of the rent account.
pub open spec fn spec_rent_id() -> Address {
    Address { bytes: RENT_ID }
}

/// Address of the clock account.
pub open spec fn spec_clock_id() -> Address {
    Address { bytes: CLOCK_ID }
}

/// Calls `solana_program::sysvar::rent::id`, which returns the constant
/// address that the crate declares for the rent account. The contract
/// states that address byte by byte.
#[verifier::external_body]
pub(crate) fn rent_id() -> (id: Address)
    ensures
        id == spec_rent_id(),
{
    Address { bytes: solana_program::sysvar::rent::id().to_bytes() }
}

/// Calls `solana_program::sysvar::clock::id`, which returns the constant
/// address that the crate declares for the clock account. The contract
/// states that address byte by byte.
#[verifier::external_body]
pub(crate) fn clock_id() -> (id: Address)
    ensures
        id == spec_clock_id(),
{
    Address { bytes: solana_program::sysvar::clock::id().to_bytes() }
}

/// Number of bytes that the host's clock takes: five 64-bit numbers.
pub const CLOCK_SIZE: usize = 40;

/// Offset of the time, the last of the clock's five numbers.
pub const CLOCK_TIME_OFFSET: usize = 32;

/// The time, in seconds since the Unix epoch, that the host's clock account
/// shows, if the account with the given address and bytes is that account:
/// it has the clock's address and holds at least the clock's 40 bytes, of
/// which the last eight are the time, little-endian and signed. Bytes
/// after the clock are ignored.
pub open spec fn clock_timestamp(key: Seq<u8>, data: Seq<u8>) -> Option<i64> {
    if key == spec_clock_id()@ && data.len() >= CLOCK_SIZE {
        Some(le_i64_at(data, CLOCK_TIME_OFFSET as int))
    } else {
        None
    }
}

/// Calls `Sysvar::from_account_info` for `solana_program::clock::Clock` on
/// an account with the given address and bytes. It fails if the address is
/// not the clock account's. Else it decodes the clock from the bytes with
/// `bincode::deserialize`, which reads the clock's five 64-bit fields in
/// order, each in eight little-endian bytes, fails if there are fewer than
/// 40 bytes and ignores what follows them. The clock's last field, the
/// time, is handed on.
#[verifier::external_body]
fn clock_from_account(key: &Address, data: &[u8]) -> (r: Option<i64>)
    ensures
        r == clock_timestamp(key@, data@),
{
    let key = Pubkey::new_from_array(key.bytes);
    let (mut lamports, mut bytes) = (0u64, data.to_vec());
    let info = AccountInfo::new(&key, false, false, &mut lamports, &mut bytes, &key, false, 0);
    Clock::from_account_info(&info).ok().map(|clock| clock.unix_timestamp)
}

/// What is made of the reading of the clock account: an account that is
/// not the clock is an `InvalidArgument`.
pub open spec fn spec_clock_result(read: Option<i64>) -> Result<i64, ProgramError> {
    match read {
        Some(now) => Ok(now),
        None => Err(ProgramError::InvalidArgument),
    }
}

/// What is made of the reading of the clock account: see
/// `spec_clock_result`.
pub fn clock_result(read: Option<i64>) -> (r: Result<i64, ProgramError>)
    ensures
        r == spec_clock_result(read),
{
    match read {
        Some(now) => Ok(now),
        None => Err(ProgramError::InvalidArgument),
    }
}

/// Reads the time from the host's clock account. Fails with
/// `InvalidArgument` if the account handed in is not the clock.
pub fn clock_unix_timestamp(key: &Address, data: &[u8]) -> (r: Result<i64, ProgramError>)
    ensures
        r == spec_clock_result(clock_timestamp(key@, data@)),
{
    clock_result(clock_from_account(key, data))
}

} // verus!
