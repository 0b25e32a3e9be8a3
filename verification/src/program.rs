//! The instructions.
//!
//! Each takes the accounts it is given, checks them, applies the rules of the
//! game, updates the accounts' data and returns what the runtime is to do. A
//! refused instruction leaves the accounts as they were.

use vstd::prelude::*;

use crate::accounts::{
    Account, ExpireBet, FundTreasury, Initialize, PlaceBet, SettleBet, WithdrawHouse,
};
use crate::actions::{Close, Expiry, Placement, Settlement, Transfer};
use crate::addresses::{bet_seeds, canonical, config_seeds, treasury_seeds};
use crate::constants::{
    COMMIT_DELAY_SLOTS, MAX_BET_LAMPORTS, MIN_BET_LAMPORTS, SETTLE_WINDOW_SLOTS, WIN_PERCENT,
};
use crate::error::{AccountError, CoinflipError, InstructionError};
use crate::events::{BetExpired, BetPlaced, BetSettled};
use crate::outcome::{digest_for, outcome_digest, roll, wins};
use crate::pubkey::Pubkey;
use crate::slot_hashes::{find_slot_hash, lookup};
use crate::state::{Bet, Choice, Config};

verus! {

/// The reason for a refusal: the fault in the accounts if there is one, else
/// the broken rule if there is one.
pub open spec fn refusal(
    fault: Option<AccountError>,
    broken: Option<CoinflipError>,
) -> Option<InstructionError> {
    match fault {
        Some(e) => Some(InstructionError::Account(e)),
        None => match broken {
            Some(e) => Some(InstructionError::Rule(e)),
            None => None,
        },
    }
}

/// What the treasury holds beyond its rent minimum and the locked payouts.
pub open spec fn free_lamports(treasury: u64, rent_min: u64, locked: u64) -> int {
    treasury - rent_min - locked
}

/// The treasury's free lamports, if it covers its rent minimum and the locked
/// payouts at all.
fn available(treasury: u64, rent_min: u64, locked: u64) -> (free: Option<u64>)
    ensures
        match free {
            Some(v) => v == free_lamports(treasury, rent_min, locked),
            None => free_lamports(treasury, rent_min, locked) < 0,
        },
{
    match treasury.checked_sub(rent_min) {
        Some(v) => v.checked_sub(locked),
        None => None,
    }
}

/// The config of a house that has just been opened.
pub open spec fn new_config(admin: Pubkey, bump: u8, treasury_bump: u8) -> Config {
    Config { admin, locked_lamports: 0, bump, treasury_bump }
}

/// The config that `initialize` writes: with the canonical bumps.
pub open spec fn first_config(accounts: Initialize, program_id: Seq<u8>) -> Config {
    new_config(
        accounts.admin.key,
        canonical(config_seeds(), program_id).unwrap().1,
        canonical(treasury_seeds(), program_id).unwrap().1,
    )
}

/// The accounts once the config has been written.
pub open spec fn with_config(accounts: Initialize, config: Config) -> Initialize {
    Initialize { config: Account { data: Some(config), ..accounts.config }, ..accounts }
}

/// The transfer that lifts the treasury to its rent minimum, if it is below.
pub open spec fn top_up(accounts: Initialize, rent_min: u64) -> Option<Transfer> {
    if accounts.treasury.lamports < rent_min {
        Some(
            Transfer {
                from: accounts.admin.key,
                to: accounts.treasury.key,
                lamports: (rent_min - accounts.treasury.lamports) as u64,
            },
        )
    } else {
        None
    }
}

/// Writes the config of accounts that have been checked, and says what the
/// treasury lacks to be rent-exempt.
pub fn open_house(
    accounts: &mut Initialize,
    bump: u8,
    treasury_bump: u8,
    rent_min: u64,
) -> (transfer: Option<Transfer>)
    ensures
        transfer == top_up(*old(accounts), rent_min),
        *final(accounts) == with_config(
            *old(accounts),
            new_config(old(accounts).admin.key, bump, treasury_bump),
        ),
{
    accounts.config.data = Some(
        Config { admin: accounts.admin.key, locked_lamports: 0, bump, treasury_bump },
    );
    let lacking: u64 = rent_min.saturating_sub(accounts.treasury.lamports);
    if lacking > 0 {
        Some(
            Transfer { from: accounts.admin.key, to: accounts.treasury.key, lamports: lacking },
        )
    } else {
        None
    }
}

/// One-time setup: creates the config and makes the treasury rent-exempt so
/// that it can never be garbage-collected.
pub fn initialize(accounts: &mut Initialize, program_id: &Pubkey, rent_min: u64) -> (opened: Result<
    Option<Transfer>,
    InstructionError,
>)
    ensures
        match refusal(old(accounts).fault_in(program_id@), None) {
            Some(e) => {
                &&& opened == Err::<Option<Transfer>, InstructionError>(e)
                &&& *final(accounts) == *old(accounts)
            },
            None => {
                &&& opened == Ok::<Option<Transfer>, InstructionError>(
                    top_up(*old(accounts), rent_min),
                )
                &&& *final(accounts) == with_config(
                    *old(accounts),
                    first_config(*old(accounts), program_id@),
                )
            },
        },
{
    match accounts.validate(program_id) {
        Err(e) => Err(InstructionError::Account(e)),
        Ok((bump, treasury_bump)) => Ok(open_house(accounts, bump, treasury_bump, rent_min)),
    }
}

/// What funding has the runtime do.
pub open spec fn funding(accounts: FundTreasury, amount: u64) -> Transfer {
    Transfer { from: accounts.funder.key, to: accounts.treasury.key, lamports: amount }
}

/// Anyone may add house liquidity to the treasury.
pub fn fund_treasury(accounts: &FundTreasury, program_id: &Pubkey, amount: u64) -> (funded: Result<
    Transfer,
    InstructionError,
>)
    ensures
        match refusal(accounts.fault_in(program_id@), None) {
            Some(e) => funded == Err::<Transfer, InstructionError>(e),
            None => funded == Ok::<Transfer, InstructionError>(funding(*accounts, amount)),
        },
        funded matches Ok(t) ==> {
            &&& t.from == accounts.funder.key
            &&& t.to == accounts.treasury.key
            &&& t.lamports == amount
        },
{
    match accounts.validate(program_id) {
        Err(e) => Err(InstructionError::Account(e)),
        Ok(()) => Ok(
            Transfer { from: accounts.funder.key, to: accounts.treasury.key, lamports: amount },
        ),
    }
}

/// The rule that a bet breaks, if any. The treasury, before the deposit, has
/// to cover every locked payout and the house's exposure on this bet, which
/// is the payout less the deposit.
pub open spec fn bet_breaks(
    config: Config,
    treasury: u64,
    rent_min: u64,
    slot: u64,
    amount: u64,
) -> Option<CoinflipError> {
    if amount < MIN_BET_LAMPORTS {
        Some(CoinflipError::BetTooSmall)
    } else if amount > MAX_BET_LAMPORTS {
        Some(CoinflipError::BetTooLarge)
    } else if free_lamports(treasury, rent_min, config.locked_lamports) < amount {
        Some(CoinflipError::InsufficientTreasury)
    } else if config.locked_lamports + 2 * amount > u64::MAX || slot + COMMIT_DELAY_SLOTS
        > u64::MAX {
        Some(CoinflipError::MathOverflow)
    } else {
        None
    }
}

/// The bet that is recorded when `player` places it at `slot`.
pub open spec fn new_bet(
    player: Pubkey,
    bump: u8,
    slot: u64,
    nonce: u64,
    amount: u64,
    choice: Choice,
) -> Bet {
    Bet {
        player,
        amount,
        choice,
        target_slot: (slot + COMMIT_DELAY_SLOTS) as u64,
        nonce,
        bump,
    }
}

/// The config once a bet of `amount` has locked its payout.
pub open spec fn locking(config: Config, amount: u64) -> Config {
    Config { locked_lamports: (config.locked_lamports + 2 * amount) as u64, ..config }
}

/// The accounts after a bet has been accepted.
pub open spec fn with_bet(accounts: PlaceBet, bet: Bet) -> PlaceBet {
    PlaceBet {
        config: Account {
            data: Some(locking(accounts.config.data.unwrap(), bet.amount)),
            ..accounts.config
        },
        bet: Account { data: Some(bet), ..accounts.bet },
        ..accounts
    }
}

/// What an accepted bet has the runtime do and report.
pub open spec fn placement(accounts: PlaceBet, bet: Bet) -> Placement {
    Placement {
        deposit: Transfer {
            from: accounts.player.key,
            to: accounts.treasury.key,
            lamports: bet.amount,
        },
        event: BetPlaced {
            player: accounts.player.key,
            nonce: bet.nonce,
            amount: bet.amount,
            choice: bet.choice,
            target_slot: bet.target_slot,
        },
    }
}

/// Applies the rules to a bet on accounts that have been checked.
pub fn accept_bet(
    accounts: &mut PlaceBet,
    bump: u8,
    rent_min: u64,
    slot: u64,
    nonce: u64,
    amount: u64,
    choice: Choice,
) -> (placed: Result<Placement, CoinflipError>)
    requires
        old(accounts).config.data is Some,
    ensures
        match bet_breaks(
            old(accounts).config.data.unwrap(),
            old(accounts).treasury.lamports,
            rent_min,
            slot,
            amount,
        ) {
            Some(e) => {
                &&& placed == Err::<Placement, CoinflipError>(e)
                &&& *final(accounts) == *old(accounts)
            },
            None => {
                let bet = new_bet(old(accounts).player.key, bump, slot, nonce, amount, choice);
                &&& placed == Ok::<Placement, CoinflipError>(placement(*old(accounts), bet))
                &&& *final(accounts) == with_bet(*old(accounts), bet)
            },
        },
{
    if amount < MIN_BET_LAMPORTS {
        return Err(CoinflipError::BetTooSmall);
    }
    if amount > MAX_BET_LAMPORTS {
        return Err(CoinflipError::BetTooLarge);
    }
    let payout: u64 = match amount.checked_mul(2) {
        Some(v) => v,
        None => {
            return Err(CoinflipError::MathOverflow);
        },
    };
    let config: Config = accounts.config.data.unwrap();
    match available(accounts.treasury.lamports, rent_min, config.locked_lamports) {
        None => {
            return Err(CoinflipError::InsufficientTreasury);
        },
        Some(free) => {
            if free < amount {
                return Err(CoinflipError::InsufficientTreasury);
            }
        },
    }
    let locked: u64 = match config.locked_lamports.checked_add(payout) {
        Some(v) => v,
        None => {
            return Err(CoinflipError::MathOverflow);
        },
    };
    let target_slot: u64 = match slot.checked_add(COMMIT_DELAY_SLOTS) {
        Some(v) => v,
        None => {
            return Err(CoinflipError::MathOverflow);
        },
    };
    let player: Pubkey = accounts.player.key;
    accounts.config.data = Some(
        Config {
            admin: config.admin,
            locked_lamports: locked,
            bump: config.bump,
            treasury_bump: config.treasury_bump,
        },
    );
    accounts.bet.data = Some(Bet { player, amount, choice, target_slot, nonce, bump });
    Ok(
        Placement {
            deposit: Transfer { from: player, to: accounts.treasury.key, lamports: amount },
            event: BetPlaced { player, nonce, amount, choice, target_slot },
        },
    )
}

/// Why `place_bet` is refused, if it is.
pub open spec fn place_bet_refusal(
    accounts: PlaceBet,
    program_id: Seq<u8>,
    rent_min: u64,
    slot: u64,
    nonce: u64,
    amount: u64,
) -> Option<InstructionError> {
    refusal(
        accounts.fault_in(program_id, nonce),
        bet_breaks(
            accounts.config.data.unwrap(),
            accounts.treasury.lamports,
            rent_min,
            slot,
            amount,
        ),
    )
}

/// The bet that `place_bet` records.
pub open spec fn placed_bet(
    accounts: PlaceBet,
    program_id: Seq<u8>,
    slot: u64,
    nonce: u64,
    amount: u64,
    choice: Choice,
) -> Bet {
    new_bet(
        accounts.player.key,
        canonical(bet_seeds(accounts.player.key@, nonce), program_id).unwrap().1,
        slot,
        nonce,
        amount,
        choice,
    )
}

/// Places a bet of `amount` lamports on `choice`. The outcome is decided by
/// the hash of slot `slot + COMMIT_DELAY_SLOTS`, which does not exist yet.
pub fn place_bet(
    accounts: &mut PlaceBet,
    program_id: &Pubkey,
    rent_min: u64,
    slot: u64,
    nonce: u64,
    amount: u64,
    choice: Choice,
) -> (placed: Result<Placement, InstructionError>)
    ensures
        match place_bet_refusal(*old(accounts), program_id@, rent_min, slot, nonce, amount) {
            Some(e) => {
                &&& placed == Err::<Placement, InstructionError>(e)
                &&& *final(accounts) == *old(accounts)
            },
            None => {
                let bet = placed_bet(*old(accounts), program_id@, slot, nonce, amount, choice);
                &&& placed == Ok::<Placement, InstructionError>(placement(*old(accounts), bet))
                &&& *final(accounts) == with_bet(*old(accounts), bet)
            },
        },
        placed matches Ok(p) ==> {
            &&& p.deposit.from == old(accounts).player.key
            &&& p.deposit.to == old(accounts).treasury.key
            &&& p.deposit.lamports == amount
            &&& p.event.target_slot == slot + COMMIT_DELAY_SLOTS
            &&& final(accounts).config.data.unwrap().locked_lamports
                == old(accounts).config.data.unwrap().locked_lamports + 2 * amount
            &&& final(accounts).bet.data is Some
            &&& final(accounts).bet.data.unwrap().amount == amount
            &&& final(accounts).bet.data.unwrap().choice == choice
            &&& final(accounts).bet.data.unwrap().target_slot == slot + COMMIT_DELAY_SLOTS
        },
{
    match accounts.validate(program_id, nonce) {
        Err(e) => Err(InstructionError::Account(e)),
        Ok(bump) => match accept_bet(accounts, bump, rent_min, slot, nonce, amount, choice) {
            Err(e) => Err(InstructionError::Rule(e)),
            Ok(placed) => Ok(placed),
        },
    }
}

/// The last slot in which a bet can be settled.
pub open spec fn deadline(bet: Bet) -> int {
    bet.target_slot + SETTLE_WINDOW_SLOTS
}

/// The rule that settling a bet at `slot` against the given SlotHashes data
/// breaks, if any, before the payout is looked at.
pub open spec fn window_breaks(bet: Bet, slot: u64, data: Seq<u8>) -> Option<CoinflipError> {
    if slot <= bet.target_slot {
        Some(CoinflipError::TooEarly)
    } else if deadline(bet) > u64::MAX {
        Some(CoinflipError::MathOverflow)
    } else if slot > deadline(bet) {
        Some(CoinflipError::SettleWindowPassed)
    } else if lookup(data, bet.target_slot as int) is None {
        Some(CoinflipError::SlotHashNotFound)
    } else {
        None
    }
}

/// The hash that decides a bet settled at `slot`.
pub fn deciding_hash(bet: &Bet, slot: u64, data: &[u8]) -> (hash: Result<[u8; 32], CoinflipError>)
    ensures
        match window_breaks(*bet, slot, data@) {
            Some(e) => hash == Err::<[u8; 32], CoinflipError>(e),
            None => hash matches Ok(h) && lookup(data@, bet.target_slot as int) == Some(h@),
        },
{
    if slot <= bet.target_slot {
        return Err(CoinflipError::TooEarly);
    }
    let last: u64 = match bet.target_slot.checked_add(SETTLE_WINDOW_SLOTS) {
        Some(v) => v,
        None => {
            return Err(CoinflipError::MathOverflow);
        },
    };
    if slot > last {
        return Err(CoinflipError::SettleWindowPassed);
    }
    match find_slot_hash(data, bet.target_slot) {
        Some(h) => Ok(h),
        None => Err(CoinflipError::SlotHashNotFound),
    }
}

/// The rule that releasing a bet's locked payout breaks, if any.
pub open spec fn release_breaks(config: Config, bet: Bet) -> Option<CoinflipError> {
    if 2 * bet.amount > u64::MAX || config.locked_lamports < 2 * bet.amount {
        Some(CoinflipError::MathOverflow)
    } else {
        None
    }
}

/// The config once a bet's payout has been released.
pub open spec fn releasing(config: Config, bet: Bet) -> Config {
    Config { locked_lamports: (config.locked_lamports - 2 * bet.amount) as u64, ..config }
}

/// Releases a bet's locked payout; gives the payout and the new config.
fn release(config: &Config, bet: &Bet) -> (released: Result<(u64, Config), CoinflipError>)
    ensures
        match release_breaks(*config, *bet) {
            Some(e) => released == Err::<(u64, Config), CoinflipError>(e),
            None => released == Ok::<(u64, Config), CoinflipError>(
                ((2 * bet.amount) as u64, releasing(*config, *bet)),
            ),
        },
{
    let payout: u64 = match bet.amount.checked_mul(2) {
        Some(v) => v,
        None => {
            return Err(CoinflipError::MathOverflow);
        },
    };
    match config.locked_lamports.checked_sub(payout) {
        None => Err(CoinflipError::MathOverflow),
        Some(locked) => Ok(
            (
                payout,
                Config {
                    admin: config.admin,
                    locked_lamports: locked,
                    bump: config.bump,
                    treasury_bump: config.treasury_bump,
                },
            ),
        ),
    }
}

/// What settling a bet on `digest` has the runtime do and report.
pub open spec fn settlement(accounts: SettleBet, digest: Seq<u8>) -> Settlement {
    let bet = accounts.bet.data.unwrap();
    let win = wins(digest);
    let payout = (2 * bet.amount) as u64;
    Settlement {
        payout: if win {
            Some(
                Transfer {
                    from: accounts.treasury.key,
                    to: accounts.player,
                    lamports: payout,
                },
            )
        } else {
            None
        },
        close: Close { account: accounts.bet.key, destination: accounts.player },
        event: BetSettled {
            player: bet.player,
            nonce: bet.nonce,
            amount: bet.amount,
            choice: bet.choice,
            result: if win {
                bet.choice
            } else {
                bet.choice.other_side()
            },
            win,
            payout: if win {
                payout
            } else {
                0
            },
        },
    }
}

/// The accounts after a bet has been settled: its payout is released and it
/// is closed.
pub open spec fn after_settlement(accounts: SettleBet) -> SettleBet {
    SettleBet {
        config: Account {
            data: Some(releasing(accounts.config.data.unwrap(), accounts.bet.data.unwrap())),
            ..accounts.config
        },
        bet: Account { data: None, ..accounts.bet },
        ..accounts
    }
}

/// Settles a bet on the digest that decides it, on accounts that have been
/// checked.
pub fn settle_on(accounts: &mut SettleBet, digest: &[u8; 32]) -> (settled: Result<
    Settlement,
    CoinflipError,
>)
    requires
        old(accounts).config.data is Some,
        old(accounts).bet.data is Some,
    ensures
        match release_breaks(
            old(accounts).config.data.unwrap(),
            old(accounts).bet.data.unwrap(),
        ) {
            Some(e) => {
                &&& settled == Err::<Settlement, CoinflipError>(e)
                &&& *final(accounts) == *old(accounts)
            },
            None => {
                &&& settled == Ok::<Settlement, CoinflipError>(
                    settlement(*old(accounts), digest@),
                )
                &&& *final(accounts) == after_settlement(*old(accounts))
            },
        },
{
    let win: bool = roll(digest) < WIN_PERCENT;
    let config: Config = accounts.config.data.unwrap();
    let bet: Bet = accounts.bet.data.unwrap();
    let (payout, config): (u64, Config) = match release(&config, &bet) {
        Ok(v) => v,
        Err(e) => {
            return Err(e);
        },
    };
    accounts.config.data = Some(config);
    accounts.bet.data = None;
    let transfer: Option<Transfer> = if win {
        Some(Transfer { from: accounts.treasury.key, to: accounts.player, lamports: payout })
    } else {
        None
    };
    Ok(
        Settlement {
            payout: transfer,
            close: Close { account: accounts.bet.key, destination: accounts.player },
            event: BetSettled {
                player: bet.player,
                nonce: bet.nonce,
                amount: bet.amount,
                choice: bet.choice,
                result: if win {
                    bet.choice
                } else {
                    bet.choice.opposite()
                },
                win,
                payout: if win {
                    payout
                } else {
                    0
                },
            },
        },
    )
}

/// The first of two broken rules.
pub open spec fn first_broken(
    first: Option<CoinflipError>,
    second: Option<CoinflipError>,
) -> Option<CoinflipError> {
    if first is Some {
        first
    } else {
        second
    }
}

/// Why `settle_bet` is refused, if it is.
pub open spec fn settle_bet_refusal(
    accounts: SettleBet,
    program_id: Seq<u8>,
    slot: u64,
    data: Seq<u8>,
) -> Option<InstructionError> {
    refusal(
        accounts.fault_in(program_id),
        first_broken(
            window_breaks(accounts.bet.data.unwrap(), slot, data),
            release_breaks(accounts.config.data.unwrap(), accounts.bet.data.unwrap()),
        ),
    )
}

/// The digest that decides a bet against the given SlotHashes data.
pub open spec fn deciding_digest(bet: Account<Bet>, data: Seq<u8>) -> Seq<u8> {
    let target_slot = bet.data.unwrap().target_slot;
    digest_for(lookup(data, target_slot as int).unwrap(), bet.key@, target_slot)
}

/// Settles a bet once its target slot has been produced. Permissionless:
/// anyone may call this; the payout always goes to the recorded player.
pub fn settle_bet(accounts: &mut SettleBet, program_id: &Pubkey, slot: u64, data: &[u8]) -> (settled:
    Result<Settlement, InstructionError>)
    ensures
        match settle_bet_refusal(*old(accounts), program_id@, slot, data@) {
            Some(e) => {
                &&& settled == Err::<Settlement, InstructionError>(e)
                &&& *final(accounts) == *old(accounts)
            },
            None => {
                &&& settled == Ok::<Settlement, InstructionError>(
                    settlement(*old(accounts), deciding_digest(old(accounts).bet, data@)),
                )
                &&& *final(accounts) == after_settlement(*old(accounts))
            },
        },
{
    match accounts.validate(program_id) {
        Err(e) => {
            return Err(InstructionError::Account(e));
        },
        Ok(()) => {},
    }
    let bet: Bet = accounts.bet.data.unwrap();
    let slot_hash: [u8; 32] = match deciding_hash(&bet, slot, data) {
        Ok(h) => h,
        Err(e) => {
            return Err(InstructionError::Rule(e));
        },
    };
    let digest: [u8; 32] = outcome_digest(&slot_hash, &accounts.bet.key, bet.target_slot);
    match settle_on(accounts, &digest) {
        Err(e) => Err(InstructionError::Rule(e)),
        Ok(settled) => Ok(settled),
    }
}

/// The rule that expiring a bet at `slot` breaks, if any.
pub open spec fn expiry_breaks(config: Config, bet: Bet, slot: u64) -> Option<CoinflipError> {
    if deadline(bet) > u64::MAX {
        Some(CoinflipError::MathOverflow)
    } else if slot <= deadline(bet) {
        Some(CoinflipError::NotExpired)
    } else {
        release_breaks(config, bet)
    }
}

/// Why `expire_bet` is refused, if it is.
pub open spec fn expire_bet_refusal(accounts: ExpireBet, program_id: Seq<u8>, slot: u64) -> Option<
    InstructionError,
> {
    refusal(
        accounts.fault_in(program_id),
        expiry_breaks(accounts.config.data.unwrap(), accounts.bet.data.unwrap(), slot),
    )
}

/// What expiring a bet has the runtime do and report.
pub open spec fn expiry(accounts: ExpireBet) -> Expiry {
    let bet = accounts.bet.data.unwrap();
    Expiry {
        close: Close { account: accounts.bet.key, destination: accounts.player },
        event: BetExpired { player: bet.player, nonce: bet.nonce, amount: bet.amount },
    }
}

/// The accounts after a bet has expired: its payout is released and it is
/// closed.
pub open spec fn after_expiry(accounts: ExpireBet) -> ExpireBet {
    ExpireBet {
        config: Account {
            data: Some(releasing(accounts.config.data.unwrap(), accounts.bet.data.unwrap())),
            ..accounts.config
        },
        bet: Account { data: None, ..accounts.bet },
        ..accounts
    }
}

/// Forfeits a bet whose settlement window has passed. The bet's lamports stay
/// in the treasury; only the bet account's rent is refunded to the player.
/// Permissionless. (A refund here would let players settle only winning bets,
/// so expiry must favor the house.)
pub fn expire_bet(accounts: &mut ExpireBet, program_id: &Pubkey, slot: u64) -> (expired: Result<
    Expiry,
    InstructionError,
>)
    ensures
        match expire_bet_refusal(*old(accounts), program_id@, slot) {
            Some(e) => {
                &&& expired == Err::<Expiry, InstructionError>(e)
                &&& *final(accounts) == *old(accounts)
            },
            None => {
                &&& expired == Ok::<Expiry, InstructionError>(expiry(*old(accounts)))
                &&& *final(accounts) == after_expiry(*old(accounts))
            },
        },
{
    match accounts.validate(program_id) {
        Err(e) => {
            return Err(InstructionError::Account(e));
        },
        Ok(()) => {},
    }
    let config: Config = accounts.config.data.unwrap();
    let bet: Bet = accounts.bet.data.unwrap();
    let last: u64 = match bet.target_slot.checked_add(SETTLE_WINDOW_SLOTS) {
        Some(v) => v,
        None => {
            return Err(InstructionError::Rule(CoinflipError::MathOverflow));
        },
    };
    if slot <= last {
        return Err(InstructionError::Rule(CoinflipError::NotExpired));
    }
    let config: Config = match release(&config, &bet) {
        Ok((_, c)) => c,
        Err(e) => {
            return Err(InstructionError::Rule(e));
        },
    };
    accounts.config.data = Some(config);
    accounts.bet.data = None;
    Ok(
        Expiry {
            close: Close { account: accounts.bet.key, destination: accounts.player },
            event: BetExpired { player: bet.player, nonce: bet.nonce, amount: bet.amount },
        },
    )
}

/// The rule that a withdrawal breaks, if any.
pub open spec fn withdrawal_breaks(
    config: Config,
    treasury: u64,
    rent_min: u64,
    amount: u64,
) -> Option<CoinflipError> {
    if free_lamports(treasury, rent_min, config.locked_lamports) < amount {
        Some(CoinflipError::InsufficientTreasury)
    } else {
        None
    }
}

/// Why `withdraw_house` is refused, if it is.
pub open spec fn withdraw_house_refusal(
    accounts: WithdrawHouse,
    program_id: Seq<u8>,
    rent_min: u64,
    amount: u64,
) -> Option<InstructionError> {
    refusal(
        accounts.fault_in(program_id),
        withdrawal_breaks(
            accounts.config.data.unwrap(),
            accounts.treasury.lamports,
            rent_min,
            amount,
        ),
    )
}

/// What a withdrawal has the runtime do.
pub open spec fn withdrawal(accounts: WithdrawHouse, amount: u64) -> Transfer {
    Transfer { from: accounts.treasury.key, to: accounts.destination, lamports: amount }
}

/// Admin withdrawal of house profit. Lamports reserved for pending payouts
/// (and the treasury's rent minimum) can never be withdrawn.
pub fn withdraw_house(
    accounts: &WithdrawHouse,
    program_id: &Pubkey,
    rent_min: u64,
    amount: u64,
) -> (withdrawn: Result<Transfer, InstructionError>)
    ensures
        match withdraw_house_refusal(*accounts, program_id@, rent_min, amount) {
            Some(e) => withdrawn == Err::<Transfer, InstructionError>(e),
            None => withdrawn == Ok::<Transfer, InstructionError>(withdrawal(*accounts, amount)),
        },
        withdrawn matches Ok(t) ==> {
            &&& t.from == accounts.treasury.key
            &&& t.to == accounts.destination
            &&& t.lamports == amount
        },
{
    match accounts.validate(program_id) {
        Err(e) => {
            return Err(InstructionError::Account(e));
        },
        Ok(()) => {},
    }
    let config: Config = accounts.config.data.unwrap();
    match available(accounts.treasury.lamports, rent_min, config.locked_lamports) {
        None => Err(InstructionError::Rule(CoinflipError::InsufficientTreasury)),
        Some(free) => {
            if amount <= free {
                Ok(
                    Transfer {
                        from: accounts.treasury.key,
                        to: accounts.destination,
                        lamports: amount,
                    },
                )
            } else {
                Err(InstructionError::Rule(CoinflipError::InsufficientTreasury))
            }
        },
    }
}

} // verus!
