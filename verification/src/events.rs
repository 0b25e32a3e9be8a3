//! What the program reports.

use vstd::prelude::*;

use crate::pubkey::Pubkey;
use crate::state::Choice;

verus! {

/// A bet was accepted.
#[derive(Clone, Copy, PartialEq, Eq, Debug)]
pub struct BetPlaced {
    pub player: Pubkey,
    pub nonce: u64,
    pub amount: u64,
    pub choice: Choice,
    pub target_slot: u64,
}

/// A bet was decided.
#[derive(Clone, Copy, PartialEq, Eq, Debug)]
pub struct BetSettled {
    pub player: Pubkey,
    pub nonce: u64,
    pub amount: u64,
    pub choice: Choice,
    pub result: Choice,
    pub win: bool,
    pub payout: u64,
}

/// A bet was forfeited to the house.
#[derive(Clone, Copy, PartialEq, Eq, Debug)]
pub struct BetExpired {
    pub player: Pubkey,
    pub nonce: u64,
    pub amount: u64,
}

} // verus!
