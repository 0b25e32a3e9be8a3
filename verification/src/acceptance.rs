//! When an instruction is accepted, and what a refused one is answered.
//!
//! Each law gives, for every input, the conditions under which the instruction
//! goes through and those under which each error is returned. The limits are
//! written out as numbers.

use vstd::prelude::*;

use crate::accounts::{
    as_result, ExpireBet, FundTreasury, Initialize, PlaceBet, SettleBet, WithdrawHouse,
};
use crate::addresses::{bet_seeds, canonical, derived};
use crate::bytes::le_bytes;
use crate::constants::{BET_SEED, CONFIG_SEED, SLOT_HASHES_ID, TREASURY_SEED};
use crate::error::{AccountError, CoinflipError, InstructionError};
use crate::program::{
    bet_breaks, expire_bet_refusal, place_bet_refusal, refusal, release_breaks,
    settle_bet_refusal, window_breaks, withdraw_house_refusal,
};
use crate::slot_hashes::{are_hashes, listed, lookup, table_gives_the_stored_hash};
use crate::state::{Bet, Config};

verus! {

/// Accounts are looked at before rules, and only what is wrong is answered.
pub proof fn accounts_come_before_rules(
    fault: Option<AccountError>,
    broken: Option<CoinflipError>,
    e: AccountError,
    r: CoinflipError,
)
    ensures
        refusal(fault, broken) is None <==> fault is None && broken is None,
        refusal(fault, broken) == Some(InstructionError::Account(e)) <==> fault == Some(e),
        refusal(fault, broken) == Some(InstructionError::Rule(r)) <==> fault is None && broken
            == Some(r),
{
}

/// The accounts of `initialize`: the admin signs, config and treasury stand at
/// their canonical addresses, and the config is not there yet.
pub proof fn initialize_accounts(a: Initialize, program_id: Seq<u8>)
    ensures
        ({
            let config = canonical(seq![CONFIG_SEED@], program_id);
            let treasury = canonical(seq![TREASURY_SEED@], program_id);
            let config_ok = config is Some && config.unwrap().0 == a.config.key.bytes@;
            let treasury_ok = treasury is Some && treasury.unwrap().0 == a.treasury.key.bytes@;
            let fault = a.fault_in(program_id);
            &&& fault is None <==> a.admin.signed && config_ok && treasury_ok && a.config.data
                is None
            &&& fault == Some(AccountError::AccountNotSigner) <==> !a.admin.signed
            &&& fault == Some(AccountError::AccountAlreadyInUse) <==> a.admin.signed && config_ok
                && a.config.data is Some
            &&& fault == Some(AccountError::ConstraintSeeds) <==> a.admin.signed && (!config_ok || (
            a.config.data is None && !treasury_ok))
        }),
{
}

/// The accounts of `fund_treasury`: the funder signs and the treasury stands
/// at its canonical address.
pub proof fn fund_treasury_accounts(a: FundTreasury, program_id: Seq<u8>)
    ensures
        ({
            let treasury = canonical(seq![TREASURY_SEED@], program_id);
            let treasury_ok = treasury is Some && treasury.unwrap().0 == a.treasury.key.bytes@;
            let fault = a.fault_in(program_id);
            &&& fault is None <==> a.funder.signed && treasury_ok
            &&& fault == Some(AccountError::AccountNotSigner) <==> !a.funder.signed
            &&& fault == Some(AccountError::ConstraintSeeds) <==> a.funder.signed && !treasury_ok
        }),
{
}

/// The accounts of `place_bet`: the player signs, the house is open, config
/// and treasury stand where the config's bumps put them, and the bet is not
/// there yet and stands at the canonical address of this player and nonce.
pub proof fn place_bet_accounts(a: PlaceBet, program_id: Seq<u8>, nonce: u64)
    ensures
        ({
            let c = a.config.data.unwrap();
            let bet = canonical(
                seq![BET_SEED@, a.player.key.bytes@, le_bytes(nonce)],
                program_id,
            );
            let bet_ok = bet is Some && bet.unwrap().0 == a.bet.key.bytes@;
            let house_ok = derived(seq![CONFIG_SEED@, seq![c.bump]], program_id) == Some(
                a.config.key.bytes@,
            ) && derived(seq![TREASURY_SEED@, seq![c.treasury_bump]], program_id) == Some(
                a.treasury.key.bytes@,
            );
            let fault = a.fault_in(program_id, nonce);
            &&& fault is None <==> a.player.signed && a.config.data is Some && bet_ok && a.bet.data
                is None && house_ok
            &&& fault == Some(AccountError::AccountNotSigner) <==> !a.player.signed
            &&& fault == Some(AccountError::AccountNotInitialized) <==> a.player.signed
                && a.config.data is None
            &&& fault == Some(AccountError::AccountAlreadyInUse) <==> a.player.signed
                && a.config.data is Some && bet_ok && a.bet.data is Some
            &&& fault == Some(AccountError::ConstraintSeeds) <==> a.player.signed && a.config.data
                is Some && (!bet_ok || (a.bet.data is None && !house_ok))
        }),
{
    let c = a.config.data.unwrap();
    spell_out(c);
    assert(bet_seeds(a.player.key@, nonce) =~= seq![
        BET_SEED@,
        a.player.key.bytes@,
        le_bytes(nonce),
    ]);
}

/// The seeds of config and treasury with a bump behind them.
proof fn spell_out(c: Config)
    ensures
        seq![CONFIG_SEED@].push(seq![c.bump]) == seq![CONFIG_SEED@, seq![c.bump]],
        seq![TREASURY_SEED@].push(seq![c.treasury_bump]) == seq![
            TREASURY_SEED@,
            seq![c.treasury_bump],
        ],
{
    assert(seq![CONFIG_SEED@].push(seq![c.bump]) =~= seq![CONFIG_SEED@, seq![c.bump]]);
    assert(seq![TREASURY_SEED@].push(seq![c.treasury_bump]) =~= seq![
        TREASURY_SEED@,
        seq![c.treasury_bump],
    ]);
}

/// The seeds of a bet with its bump behind them.
proof fn spell_out_bet(b: Bet)
    ensures
        bet_seeds(b.player@, b.nonce).push(seq![b.bump]) == seq![
            BET_SEED@,
            b.player.bytes@,
            le_bytes(b.nonce),
            seq![b.bump],
        ],
{
    assert(bet_seeds(b.player@, b.nonce).push(seq![b.bump]) =~= seq![
        BET_SEED@,
        b.player.bytes@,
        le_bytes(b.nonce),
        seq![b.bump],
    ]);
}

/// The accounts of `settle_bet`: house and bet are there, each stands where
/// its recorded bump puts it, the player is the bet's and another account than
/// the bet, and the slot hashes are the sysvar.
pub proof fn settle_bet_accounts(a: SettleBet, program_id: Seq<u8>)
    ensures
        ({
            let c = a.config.data.unwrap();
            let b = a.bet.data.unwrap();
            let there = a.config.data is Some && a.bet.data is Some;
            let placed = derived(seq![CONFIG_SEED@, seq![c.bump]], program_id) == Some(
                a.config.key.bytes@,
            ) && derived(seq![TREASURY_SEED@, seq![c.treasury_bump]], program_id) == Some(
                a.treasury.key.bytes@,
            ) && derived(
                seq![BET_SEED@, b.player.bytes@, le_bytes(b.nonce), seq![b.bump]],
                program_id,
            ) == Some(a.bet.key.bytes@);
            let fault = a.fault_in(program_id);
            &&& fault is None <==> there && placed && b.player == a.player && a.bet.key != a.player
                && a.slot_hashes.bytes@ == SLOT_HASHES_ID@
            &&& fault == Some(AccountError::AccountNotInitialized) <==> !there
            &&& fault == Some(AccountError::ConstraintSeeds) <==> there && !placed
            &&& fault == Some(AccountError::ConstraintHasOne) <==> there && placed && b.player
                != a.player
            &&& fault == Some(AccountError::ConstraintClose) <==> there && placed && b.player
                == a.player && a.bet.key == a.player
            &&& fault == Some(AccountError::ConstraintAddress) <==> there && placed && b.player
                == a.player && a.bet.key != a.player && a.slot_hashes.bytes@ != SLOT_HASHES_ID@
        }),
{
    spell_out(a.config.data.unwrap());
    spell_out_bet(a.bet.data.unwrap());
}

/// The accounts of `expire_bet`: as for `settle_bet`, without the treasury and
/// the slot hashes.
pub proof fn expire_bet_accounts(a: ExpireBet, program_id: Seq<u8>)
    ensures
        ({
            let c = a.config.data.unwrap();
            let b = a.bet.data.unwrap();
            let there = a.config.data is Some && a.bet.data is Some;
            let placed = derived(seq![CONFIG_SEED@, seq![c.bump]], program_id) == Some(
                a.config.key.bytes@,
            ) && derived(
                seq![BET_SEED@, b.player.bytes@, le_bytes(b.nonce), seq![b.bump]],
                program_id,
            ) == Some(a.bet.key.bytes@);
            let fault = a.fault_in(program_id);
            &&& fault is None <==> there && placed && b.player == a.player && a.bet.key != a.player
            &&& fault == Some(AccountError::AccountNotInitialized) <==> !there
            &&& fault == Some(AccountError::ConstraintSeeds) <==> there && !placed
            &&& fault == Some(AccountError::ConstraintHasOne) <==> there && placed && b.player
                != a.player
            &&& fault == Some(AccountError::ConstraintClose) <==> there && placed && b.player
                == a.player && a.bet.key == a.player
        }),
{
    spell_out(a.config.data.unwrap());
    spell_out_bet(a.bet.data.unwrap());
}

/// The accounts of `withdraw_house`: the admin of an open house signs, and
/// config and treasury stand where the config's bumps put them.
pub proof fn withdraw_house_accounts(a: WithdrawHouse, program_id: Seq<u8>)
    ensures
        ({
            let c = a.config.data.unwrap();
            let open = a.admin.signed && a.config.data is Some;
            let config_ok = derived(seq![CONFIG_SEED@, seq![c.bump]], program_id) == Some(
                a.config.key.bytes@,
            );
            let treasury_ok = derived(seq![TREASURY_SEED@, seq![c.treasury_bump]], program_id)
                == Some(a.treasury.key.bytes@);
            let fault = a.fault_in(program_id);
            &&& fault is None <==> open && config_ok && c.admin == a.admin.key && treasury_ok
            &&& fault == Some(AccountError::AccountNotSigner) <==> !a.admin.signed
            &&& fault == Some(AccountError::AccountNotInitialized) <==> a.admin.signed
                && a.config.data is None
            &&& fault == Some(AccountError::ConstraintHasOne) <==> open && config_ok && c.admin
                != a.admin.key
            &&& fault == Some(AccountError::ConstraintSeeds) <==> open && (!config_ok || (c.admin
                == a.admin.key && !treasury_ok))
        }),
{
    spell_out(a.config.data.unwrap());
}

/// Any bet of 0.1 to 10 SOL that the treasury covers beside its rent minimum
/// and the locked payouts is accepted; each other bet is answered with the
/// first rule that it breaks.
pub proof fn place_bet_is_accepted_iff(
    a: PlaceBet,
    program_id: Seq<u8>,
    rent_min: u64,
    slot: u64,
    nonce: u64,
    amount: u64,
)
    ensures
        ({
            let c = a.config.data.unwrap();
            let answer = place_bet_refusal(a, program_id, rent_min, slot, nonce, amount);
            let fault = a.fault_in(program_id, nonce);
            let sized = 100_000_000 <= amount <= 10_000_000_000;
            let covered = a.treasury.lamports >= rent_min + c.locked_lamports + amount;
            let fits = c.locked_lamports + 2 * amount <= u64::MAX && slot + 2 <= u64::MAX;
            &&& answer is None <==> fault is None && sized && covered && fits
            &&& fault is Some ==> answer == Some(InstructionError::Account(fault.unwrap()))
            &&& fault is None && amount < 100_000_000 ==> answer == Some(
                InstructionError::Rule(CoinflipError::BetTooSmall),
            )
            &&& fault is None && amount > 10_000_000_000 ==> answer == Some(
                InstructionError::Rule(CoinflipError::BetTooLarge),
            )
            &&& fault is None && sized && !covered ==> answer == Some(
                InstructionError::Rule(CoinflipError::InsufficientTreasury),
            )
            &&& fault is None && sized && covered && !fits ==> answer == Some(
                InstructionError::Rule(CoinflipError::MathOverflow),
            )
        }),
{
}

/// The rules for a bet, whatever accounts it comes with.
pub proof fn bet_keeps_the_rules_iff(
    c: Config,
    treasury: u64,
    rent_min: u64,
    slot: u64,
    amount: u64,
)
    ensures
        ({
            let broken = bet_breaks(c, treasury, rent_min, slot, amount);
            let sized = 100_000_000 <= amount <= 10_000_000_000;
            let covered = treasury >= rent_min + c.locked_lamports + amount;
            let fits = c.locked_lamports + 2 * amount <= u64::MAX && slot + 2 <= u64::MAX;
            &&& broken is None <==> sized && covered && fits
            &&& broken == Some(CoinflipError::BetTooSmall) <==> amount < 100_000_000
            &&& broken == Some(CoinflipError::BetTooLarge) <==> amount > 10_000_000_000
            &&& broken == Some(CoinflipError::InsufficientTreasury) <==> sized && !covered
            &&& broken == Some(CoinflipError::MathOverflow) <==> sized && covered && !fits
        }),
{
}

/// A bet can be decided in the 512 slots after its target slot, if the slot's
/// hash is found; at any other time, or without the hash, it cannot.
pub proof fn bet_is_decided_iff(b: Bet, slot: u64, data: Seq<u8>)
    ensures
        ({
            let broken = window_breaks(b, slot, data);
            let exists_end = b.target_slot + 512 <= u64::MAX;
            let found = lookup(data, b.target_slot as int) is Some;
            &&& broken is None <==> b.target_slot < slot <= b.target_slot + 512 && exists_end
                && found
            &&& broken == Some(CoinflipError::TooEarly) <==> slot <= b.target_slot
            &&& broken == Some(CoinflipError::MathOverflow) <==> slot > b.target_slot
                && !exists_end
            &&& broken == Some(CoinflipError::SettleWindowPassed) <==> exists_end && slot
                > b.target_slot + 512
            &&& broken == Some(CoinflipError::SlotHashNotFound) <==> exists_end && b.target_slot
                < slot <= b.target_slot + 512 && !found
        }),
{
}

/// A payout is released iff it is a number and locked.
pub proof fn payout_is_released_iff(c: Config, b: Bet)
    ensures
        release_breaks(c, b) is None <==> 2 * b.amount <= u64::MAX && 2 * b.amount
            <= c.locked_lamports,
        release_breaks(c, b) is Some ==> release_breaks(c, b) == Some(CoinflipError::MathOverflow),
{
}

/// A bet is settled iff its accounts are in order, it can be decided and its
/// payout released, in that order of answers.
pub proof fn settle_bet_is_accepted_iff(a: SettleBet, program_id: Seq<u8>, slot: u64, data: Seq<u8>)
    ensures
        ({
            let b = a.bet.data.unwrap();
            let c = a.config.data.unwrap();
            let answer = settle_bet_refusal(a, program_id, slot, data);
            let fault = a.fault_in(program_id);
            let window = window_breaks(b, slot, data);
            let funded = 2 * b.amount <= u64::MAX && 2 * b.amount <= c.locked_lamports;
            &&& answer is None <==> fault is None && b.target_slot < slot <= b.target_slot + 512
                && b.target_slot + 512 <= u64::MAX && lookup(data, b.target_slot as int) is Some
                && funded
            &&& fault is Some ==> answer == Some(InstructionError::Account(fault.unwrap()))
            &&& fault is None && window is Some ==> answer == Some(
                InstructionError::Rule(window.unwrap()),
            )
            &&& fault is None && window is None && !funded ==> answer == Some(
                InstructionError::Rule(CoinflipError::MathOverflow),
            )
        }),
{
}

/// A bet whose target slot is in the SlotHashes data is settled there and
/// then: with its accounts in order, its payout locked and the clock in the
/// window, nothing stands in the way, however long the table.
pub proof fn produced_slot_settles_the_bet(
    a: SettleBet,
    program_id: Seq<u8>,
    slot: u64,
    pairs: Seq<(u64, Seq<u8>)>,
    rest: Seq<u8>,
    i: int,
)
    requires
        a.fault_in(program_id) is None,
        are_hashes(pairs),
        pairs.len() <= u64::MAX,
        0 <= i < pairs.len(),
        forall|j: int, k: int|
            0 <= j < k < pairs.len() ==> (#[trigger] pairs[j]).0 > (#[trigger] pairs[k]).0,
        pairs[i].0 == a.bet.data.unwrap().target_slot,
        pairs[i].0 < slot <= pairs[i].0 + 512 <= u64::MAX,
        2 * a.bet.data.unwrap().amount <= a.config.data.unwrap().locked_lamports,
    ensures
        settle_bet_refusal(
            a,
            program_id,
            slot,
            le_bytes(pairs.len() as u64) + listed(pairs) + rest,
        ) is None,
{
    table_gives_the_stored_hash(pairs.len() as u64, pairs, rest, i);
}

/// A bet is expired iff its accounts are in order, its 512 slots are over and
/// its payout can be released.
pub proof fn expire_bet_is_accepted_iff(a: ExpireBet, program_id: Seq<u8>, slot: u64)
    ensures
        ({
            let b = a.bet.data.unwrap();
            let c = a.config.data.unwrap();
            let answer = expire_bet_refusal(a, program_id, slot);
            let fault = a.fault_in(program_id);
            let exists_end = b.target_slot + 512 <= u64::MAX;
            let funded = 2 * b.amount <= u64::MAX && 2 * b.amount <= c.locked_lamports;
            &&& answer is None <==> fault is None && exists_end && slot > b.target_slot + 512
                && funded
            &&& fault is Some ==> answer == Some(InstructionError::Account(fault.unwrap()))
            &&& fault is None && exists_end && slot <= b.target_slot + 512 ==> answer == Some(
                InstructionError::Rule(CoinflipError::NotExpired),
            )
            &&& fault is None && (!exists_end || (slot > b.target_slot + 512 && !funded))
                ==> answer == Some(InstructionError::Rule(CoinflipError::MathOverflow))
        }),
{
}

/// The admin gets any amount up to what is free, and is refused more.
pub proof fn withdraw_house_is_accepted_iff(
    a: WithdrawHouse,
    program_id: Seq<u8>,
    rent_min: u64,
    amount: u64,
)
    ensures
        ({
            let c = a.config.data.unwrap();
            let answer = withdraw_house_refusal(a, program_id, rent_min, amount);
            let fault = a.fault_in(program_id);
            let covered = a.treasury.lamports >= rent_min + c.locked_lamports + amount;
            &&& answer is None <==> fault is None && covered
            &&& fault is Some ==> answer == Some(InstructionError::Account(fault.unwrap()))
            &&& fault is None && !covered ==> answer == Some(
                InstructionError::Rule(CoinflipError::InsufficientTreasury),
            )
        }),
{
}

/// A check passes iff there is no fault, and answers with the fault.
pub proof fn checks_answer_with_the_fault(e: AccountError)
    ensures
        as_result(None) is Ok,
        as_result(Some(e)) == Err::<(), AccountError>(e),
{
}

/// The checks of `initialize` and `fund_treasury` against any addresses found.
pub proof fn found_addresses_decide(
    i: Initialize,
    f: FundTreasury,
    config: Option<(Seq<u8>, u8)>,
    treasury: Option<(Seq<u8>, u8)>,
)
    ensures
        ({
            let config_ok = config is Some && config.unwrap().0 == i.config.key.bytes@;
            let treasury_ok = treasury is Some && treasury.unwrap().0 == i.treasury.key.bytes@;
            let fault = i.fault(config, treasury);
            &&& fault is None <==> i.admin.signed && config_ok && treasury_ok && i.config.data
                is None
            &&& fault == Some(AccountError::AccountNotSigner) <==> !i.admin.signed
            &&& fault == Some(AccountError::AccountAlreadyInUse) <==> i.admin.signed && config_ok
                && i.config.data is Some
            &&& fault == Some(AccountError::ConstraintSeeds) <==> i.admin.signed && (!config_ok || (
            i.config.data is None && !treasury_ok))
        }),
        ({
            let treasury_ok = treasury is Some && treasury.unwrap().0 == f.treasury.key.bytes@;
            let fault = f.fault(treasury);
            &&& fault is None <==> f.funder.signed && treasury_ok
            &&& fault == Some(AccountError::AccountNotSigner) <==> !f.funder.signed
            &&& fault == Some(AccountError::ConstraintSeeds) <==> f.funder.signed && !treasury_ok
        }),
{
}

/// The checks of `place_bet` against any addresses found and derived.
pub proof fn place_bet_addresses_decide(
    a: PlaceBet,
    bet: Option<(Seq<u8>, u8)>,
    config: Option<Seq<u8>>,
    treasury: Option<Seq<u8>>,
)
    ensures
        ({
            let bet_ok = bet is Some && bet.unwrap().0 == a.bet.key.bytes@;
            let house_ok = config == Some(a.config.key.bytes@) && treasury == Some(
                a.treasury.key.bytes@,
            );
            let fault = a.fault(bet, config, treasury);
            &&& fault is None <==> a.player.signed && a.config.data is Some && bet_ok && a.bet.data
                is None && house_ok
            &&& fault == Some(AccountError::AccountNotSigner) <==> !a.player.signed
            &&& fault == Some(AccountError::AccountNotInitialized) <==> a.player.signed
                && a.config.data is None
            &&& fault == Some(AccountError::AccountAlreadyInUse) <==> a.player.signed
                && a.config.data is Some && bet_ok && a.bet.data is Some
            &&& fault == Some(AccountError::ConstraintSeeds) <==> a.player.signed && a.config.data
                is Some && (!bet_ok || (a.bet.data is None && !house_ok))
        }),
{
}

/// The checks of `settle_bet` and `expire_bet` against any addresses derived.
pub proof fn bet_addresses_decide(
    s: SettleBet,
    x: ExpireBet,
    config: Option<Seq<u8>>,
    treasury: Option<Seq<u8>>,
    bet: Option<Seq<u8>>,
)
    ensures
        ({
            let there = s.config.data is Some && s.bet.data is Some;
            let placed = config == Some(s.config.key.bytes@) && treasury == Some(
                s.treasury.key.bytes@,
            ) && bet == Some(s.bet.key.bytes@);
            let own = s.bet.data.unwrap().player == s.player;
            let apart = s.bet.key != s.player;
            let sysvar = s.slot_hashes.bytes@ == SLOT_HASHES_ID@;
            let fault = s.fault(config, treasury, bet);
            &&& fault is None <==> there && placed && own && apart && sysvar
            &&& fault == Some(AccountError::AccountNotInitialized) <==> !there
            &&& fault == Some(AccountError::ConstraintSeeds) <==> there && !placed
            &&& fault == Some(AccountError::ConstraintHasOne) <==> there && placed && !own
            &&& fault == Some(AccountError::ConstraintClose) <==> there && placed && own && !apart
            &&& fault == Some(AccountError::ConstraintAddress) <==> there && placed && own && apart
                && !sysvar
        }),
        ({
            let there = x.config.data is Some && x.bet.data is Some;
            let placed = config == Some(x.config.key.bytes@) && bet == Some(x.bet.key.bytes@);
            let own = x.bet.data.unwrap().player == x.player;
            let apart = x.bet.key != x.player;
            let fault = x.fault(config, bet);
            &&& fault is None <==> there && placed && own && apart
            &&& fault == Some(AccountError::AccountNotInitialized) <==> !there
            &&& fault == Some(AccountError::ConstraintSeeds) <==> there && !placed
            &&& fault == Some(AccountError::ConstraintHasOne) <==> there && placed && !own
            &&& fault == Some(AccountError::ConstraintClose) <==> there && placed && own && !apart
        }),
{
}

/// The checks of `withdraw_house` against any addresses derived.
pub proof fn withdraw_addresses_decide(
    a: WithdrawHouse,
    config: Option<Seq<u8>>,
    treasury: Option<Seq<u8>>,
)
    ensures
        ({
            let open = a.admin.signed && a.config.data is Some;
            let config_ok = config == Some(a.config.key.bytes@);
            let treasury_ok = treasury == Some(a.treasury.key.bytes@);
            let admin_ok = a.config.data.unwrap().admin == a.admin.key;
            let fault = a.fault(config, treasury);
            &&& fault is None <==> open && config_ok && admin_ok && treasury_ok
            &&& fault == Some(AccountError::AccountNotSigner) <==> !a.admin.signed
            &&& fault == Some(AccountError::AccountNotInitialized) <==> a.admin.signed
                && a.config.data is None
            &&& fault == Some(AccountError::ConstraintHasOne) <==> open && config_ok && !admin_ok
            &&& fault == Some(AccountError::ConstraintSeeds) <==> open && (!config_ok || (admin_ok
                && !treasury_ok))
        }),
{
}

} // verus!
