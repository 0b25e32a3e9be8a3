//! The limits and fixed byte strings of the game.

use vstd::prelude::*;

verus! {

/// Minimum bet: 0.1 SOL.
pub const MIN_BET_LAMPORTS: u64 = 100_000_000;

/// Maximum bet: 10 SOL.
pub const MAX_BET_LAMPORTS: u64 = 10_000_000_000;

/// The player wins iff the roll (in 0..100) is below this.
pub const WIN_PERCENT: u64 = 49;

/// Slots between placing a bet and the slot whose hash decides it.
pub const COMMIT_DELAY_SLOTS: u64 = 2;

/// SlotHashes retains the most recent 512 slot hashes; after that a bet can
/// no longer be settled and forfeits to the house.
pub const SETTLE_WINDOW_SLOTS: u64 = 512;

/// `config`, the seed of the config account's address.
pub const CONFIG_SEED: [u8; 6] = [99, 111, 110, 102, 105, 103];

/// `treasury`, the seed of the treasury's address.
pub const TREASURY_SEED: [u8; 8] = [116, 114, 101, 97, 115, 117, 114, 121];

/// `bet`, the first seed of a bet account's address.
pub const BET_SEED: [u8; 3] = [98, 101, 116];

/// The address of the SlotHashes sysvar,
/// `SysvarS1otHashes111111111111111111111111111`.
pub const SLOT_HASHES_ID: [u8; 32] = [
    6, 167, 213, 23, 25, 47, 10, 175, 198, 242, 101, 227, 251, 119, 204, 122, 218, 130, 197, 41,
    208, 190, 59, 19, 110, 45, 0, 85, 32, 0, 0, 0,
];

} // verus!
