//! Feature gate governance: staging of feature flags, stake-weighted support
//! signals from validators, and revocation of pending activations.
use vstd::prelude::*;

pub mod address;
pub mod bitmask;
pub mod error;
pub mod instruction;
pub mod processor;
pub mod signal;
pub mod staged;

verus! {

/// The address of the feature gate program
/// (`Feature111111111111111111111111111111111111`).
pub const ID: [u8; 32] = [
    3, 192, 160, 205, 203, 6, 210, 218, 239, 174, 130, 209, 111, 238, 122, 207, 97, 236, 115, 123,
    35, 72, 27, 33, 148, 106, 118, 112, 0, 0, 0, 0,
];

/// The address of the vote program
/// (`Vote111111111111111111111111111111111111111`), which owns vote accounts.
pub const VOTE_PROGRAM_ID: [u8; 32] = [
    7, 97, 72, 29, 53, 116, 116, 187, 124, 77, 118, 36, 235, 211, 189, 179, 216, 53, 94, 115, 209,
    16, 67, 252, 13, 163, 83, 128, 0, 0, 0, 0,
];

/// The address of the system program (`11111111111111111111111111111111`),
/// the owner of accounts that no other program holds.
pub const SYSTEM_PROGRAM_ID: [u8; 32] = [
    0, 0, 0, 0, 0, 0, 0, 0, 0, 0, 0, 0, 0, 0, 0, 0, 0, 0, 0, 0, 0, 0, 0, 0, 0, 0, 0, 0, 0, 0, 0, 0,
];

/// The address of the feature gate program.
pub fn id() -> (r: [u8; 32])
    ensures
        r == ID,
{
    ID
}

} // verus!
