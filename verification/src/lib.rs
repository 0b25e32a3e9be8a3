//! Coinflip: bet 0.1 to 10 SOL on heads or tails.
//!
//! The player wins with 49% probability (the flip lands on their pick) and
//! loses with 51% probability, giving the house a 2% edge in the long run. A
//! win pays out 2x the bet (net +bet); a loss forfeits the bet to the
//! treasury.
//!
//! Randomness is a two-transaction commit/reveal against a *future* slot
//! hash: `place_bet` commits to `slot + COMMIT_DELAY_SLOTS`, and only after
//! that slot has been produced can `settle_bet` read its hash from the
//! SlotHashes sysvar. Settlement is permissionless, and bets that are not
//! settled within the SlotHashes retention window forfeit to the house, so a
//! player gains nothing by refusing to settle a losing bet.
//!
//! Solvency: every accepted bet reserves its full 2x payout in
//! `Config.locked_lamports`. Bets that the treasury could not pay out are
//! refused, and the admin can never withdraw reserved lamports, so the
//! treasury can always honor every outstanding bet.
//!
//! The instructions are in [`program`]. They work on plain values: the
//! accounts they are given (see [`accounts`]), the clock's slot, the treasury's
//! rent minimum and the raw SlotHashes data. They answer with what the runtime
//! is to do (see [`actions`]). When each is accepted is stated and proved in
//! [`acceptance`], what it then does in [`effects`], and what holds of all of
//! them together in [`house`] and [`laws`].

pub mod acceptance;
pub mod accounts;
pub mod actions;
pub mod addresses;
pub mod bytes;
pub mod constants;
pub mod effects;
pub mod error;
pub mod events;
pub mod house;
pub mod laws;
pub mod outcome;
pub mod program;
pub mod pubkey;
pub mod slot_hashes;
pub mod state;

pub use accounts::{ExpireBet, FundTreasury, Initialize, PlaceBet, SettleBet, WithdrawHouse};
pub use constants::{
    BET_SEED, COMMIT_DELAY_SLOTS, CONFIG_SEED, MAX_BET_LAMPORTS, MIN_BET_LAMPORTS,
    SETTLE_WINDOW_SLOTS, TREASURY_SEED, WIN_PERCENT,
};
pub use error::CoinflipError;
pub use events::{BetExpired, BetPlaced, BetSettled};
pub use program::{
    expire_bet, fund_treasury, initialize, place_bet, settle_bet, withdraw_house,
};
pub use state::{Bet, Choice, Config};
