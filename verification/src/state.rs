//! What the program keeps on chain.

use vstd::prelude::*;

use crate::pubkey::Pubkey;

verus! {

/// A side of the coin.
#[derive(Clone, Copy, PartialEq, Eq, Structural, Debug)]
pub enum Choice {
    Heads,
    Tails,
}

impl Choice {
    /// The other side.
    pub fn opposite(self) -> (other: Self)
        ensures
            other == self.other_side(),
    {
        match self {
            Choice::Heads => Choice::Tails,
            Choice::Tails => Choice::Heads,
        }
    }

    /// The other side of the coin.
    pub open spec fn other_side(self) -> Self {
        if self == Choice::Heads {
            Choice::Tails
        } else {
            Choice::Heads
        }
    }
}

/// The other side differs, and its other side is the first one again.
pub proof fn opposite_is_an_involution(choice: Choice)
    ensures
        choice.other_side() != choice,
        choice.other_side().other_side() == choice,
{
}

/// The program's single configuration account.
#[derive(Clone, Copy, PartialEq, Eq, Debug)]
pub struct Config {
    pub admin: Pubkey,
    /// Sum of the 2x payouts of all pending bets. The treasury never holds
    /// less than its rent minimum plus this.
    pub locked_lamports: u64,
    pub bump: u8,
    pub treasury_bump: u8,
}

/// A pending bet.
#[derive(Clone, Copy, PartialEq, Eq, Debug)]
pub struct Bet {
    pub player: Pubkey,
    pub amount: u64,
    pub choice: Choice,
    /// The bet is decided by this slot's hash.
    pub target_slot: u64,
    pub nonce: u64,
    pub bump: u8,
}

} // verus!
