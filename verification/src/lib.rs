//! Accounting engine of a staking pool: users lock a stake token and accrue a
//! reward token at the pool's daily rate.
//!
//! A command arrives as bytes and is decoded (`instruction`), its handler
//! checks the accounts handed in and computes the new records
//! (`processor`, `state`), and what has to move on the token ledger comes
//! back as calls for the caller to make (`token`).

use vstd::prelude::*;

pub mod address;
pub mod codec;
pub mod error;
pub mod instruction;
pub mod processor;
pub mod state;
pub mod sysvar;
pub mod token;

verus! {

/// Bytes of the address under which the pool's program is deployed,
/// `DEH6htv2rzSkpC3aFK7VKiCiPrpoeQ4CXQboAKPsPgRL`.
pub const ID: [u8; 32] = [
    181, 178, 255, 1, 49, 9, 150, 234, 158, 45, 248, 215, 99, 87, 96, 7, 98, 44, 168, 163, 11, 40,
    119, 118, 229, 113, 4, 214, 120, 126, 251, 79,
];

/// The address under which the pool's program is deployed.
pub fn id() -> (id: address::Address)
    ensures
        id.bytes == ID,
{
    address::Address { bytes: ID }
}

/// Whether `id` is the address of the pool's program.
pub fn check_id(id: &address::Address) -> (same: bool)
    ensures
        same == (id.bytes@ == ID@),
{
    *id == address::Address { bytes: ID }
}

} // verus!
