//! Why an instruction is refused.

use vstd::prelude::*;

verus! {

/// The rules of the game that an instruction can break.
#[derive(Clone, Copy, PartialEq, Eq, Structural, Debug)]
pub enum CoinflipError {
    /// Bet is below the 0.1 SOL minimum.
    BetTooSmall,
    /// Bet is above the 10 SOL maximum.
    BetTooLarge,
    /// Treasury cannot cover the potential payout.
    InsufficientTreasury,
    /// Target slot has not been produced yet.
    TooEarly,
    /// Settlement window has passed; the bet must be expired.
    SettleWindowPassed,
    /// Slot hash for the target slot is not available.
    SlotHashNotFound,
    /// Bet has not expired yet.
    NotExpired,
    /// Arithmetic overflow.
    MathOverflow,
}

/// What can be wrong with the accounts that an instruction is given.
#[derive(Clone, Copy, PartialEq, Eq, Structural, Debug)]
pub enum AccountError {
    /// The account has to sign and did not.
    AccountNotSigner,
    /// The account holds no data of the program.
    AccountNotInitialized,
    /// The account that is to be created exists already.
    AccountAlreadyInUse,
    /// The address is not the one that the seeds derive.
    ConstraintSeeds,
    /// The account names another account than the one given.
    ConstraintHasOne,
    /// The account would be closed into itself.
    ConstraintClose,
    /// The address is not the required one.
    ConstraintAddress,
}

/// Why an instruction as a whole is refused: its accounts are checked before
/// any rule of the game is.
#[derive(Clone, Copy, PartialEq, Eq, Structural, Debug)]
pub enum InstructionError {
    Account(AccountError),
    Rule(CoinflipError),
}

} // verus!
