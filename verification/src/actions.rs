//! What an accepted instruction has the runtime do.

use vstd::prelude::*;

use crate::events::{BetExpired, BetPlaced, BetSettled};
use crate::pubkey::Pubkey;

verus! {

/// Move lamports from one account to another.
#[derive(Clone, Copy, PartialEq, Eq, Debug)]
pub struct Transfer {
    pub from: Pubkey,
    pub to: Pubkey,
    pub lamports: u64,
}

impl Transfer {
    /// What the transfer adds to the balance of `key`.
    pub open spec fn gain(self, key: Pubkey) -> int {
        (if self.to == key {
            self.lamports as int
        } else {
            0
        }) - (if self.from == key {
            self.lamports as int
        } else {
            0
        })
    }
}

/// What a transfer, if there is one, adds to the balance of `key`.
pub open spec fn gain_of(transfer: Option<Transfer>, key: Pubkey) -> int {
    match transfer {
        Some(t) => t.gain(key),
        None => 0,
    }
}

/// Close an account and refund its rent.
#[derive(Clone, Copy, PartialEq, Eq, Debug)]
pub struct Close {
    pub account: Pubkey,
    pub destination: Pubkey,
}

/// An accepted bet.
#[derive(Clone, Copy, PartialEq, Eq, Debug)]
pub struct Placement {
    pub deposit: Transfer,
    pub event: BetPlaced,
}

/// A decided bet: the payout is there on a win only.
#[derive(Clone, Copy, PartialEq, Eq, Debug)]
pub struct Settlement {
    pub payout: Option<Transfer>,
    pub close: Close,
    pub event: BetSettled,
}

/// A forfeited bet.
#[derive(Clone, Copy, PartialEq, Eq, Debug)]
pub struct Expiry {
    pub close: Close,
    pub event: BetExpired,
}

} // verus!
