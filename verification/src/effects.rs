//! What an accepted instruction does: which lamports move, which data changes
//! and what is reported, in terms of what it was given.

use vstd::prelude::*;

use crate::accounts::{ExpireBet, FundTreasury, Initialize, PlaceBet, SettleBet, WithdrawHouse};
use crate::actions::{gain_of, Transfer};
use crate::addresses::{bet_seeds, canonical};
use crate::bytes::{le_bytes, le_value};
use crate::constants::{BET_SEED, CONFIG_SEED, TREASURY_SEED};
use crate::outcome::{sha256, wins};
use crate::program::{
    after_expiry, after_settlement, deciding_digest, expiry, first_config, funding, locking,
    new_bet, new_config, place_bet_refusal, placed_bet, placement, releasing, settlement, top_up,
    with_bet, with_config, withdrawal,
};
use crate::pubkey::Pubkey;
use crate::slot_hashes::{are_hashes, listed, table_gives_the_stored_hash};
use crate::state::{Bet, Choice, Config};

verus! {

/// A transfer takes from one account what it gives to the other, and touches
/// no third one. Within one account it changes nothing.
pub proof fn transfer_moves_its_lamports(t: Transfer, other: Pubkey)
    ensures
        t.from != t.to ==> t.gain(t.to) == t.lamports && t.gain(t.from) == -t.lamports,
        t.from == t.to ==> t.gain(t.to) == 0,
        other != t.from && other != t.to ==> t.gain(other) == 0,
        gain_of(Some(t), other) == t.gain(other),
        gain_of(None, other) == 0,
{
}

/// `fund_treasury` moves exactly the given amount from the funder into the
/// treasury.
pub proof fn funding_moves_the_amount(a: FundTreasury, amount: u64)
    ensures
        funding(a, amount).from == a.funder.key,
        funding(a, amount).to == a.treasury.key,
        funding(a, amount).lamports == amount,
        a.funder.key != a.treasury.key ==> {
            &&& funding(a, amount).gain(a.treasury.key) == amount
            &&& funding(a, amount).gain(a.funder.key) == -amount
        },
{
}

/// `withdraw_house` moves exactly the amount asked for from the treasury to
/// the destination.
pub proof fn withdrawal_moves_the_amount(a: WithdrawHouse, amount: u64)
    ensures
        withdrawal(a, amount).from == a.treasury.key,
        withdrawal(a, amount).to == a.destination,
        withdrawal(a, amount).lamports == amount,
        a.destination != a.treasury.key ==> {
            &&& withdrawal(a, amount).gain(a.destination) == amount
            &&& withdrawal(a, amount).gain(a.treasury.key) == -amount
        },
{
}

/// `initialize` lifts the treasury to the rent minimum at the admin's cost,
/// and moves nothing if it is there already.
pub proof fn top_up_reaches_the_rent_minimum(a: Initialize, rent_min: u64)
    ensures
        top_up(a, rent_min) is Some <==> a.treasury.lamports < rent_min,
        top_up(a, rent_min) is Some ==> {
            let t = top_up(a, rent_min).unwrap();
            &&& t.from == a.admin.key
            &&& t.to == a.treasury.key
            &&& a.treasury.lamports + t.lamports == rent_min
        },
{
}

/// The config of a new house names the admin and the bumps, with nothing
/// locked.
pub proof fn new_config_locks_nothing(admin: Pubkey, bump: u8, treasury_bump: u8)
    ensures
        new_config(admin, bump, treasury_bump).admin == admin,
        new_config(admin, bump, treasury_bump).locked_lamports == 0,
        new_config(admin, bump, treasury_bump).bump == bump,
        new_config(admin, bump, treasury_bump).treasury_bump == treasury_bump,
{
}

/// An accepted `initialize` writes the admin who signs and the canonical bumps
/// of config and treasury, with nothing locked, and touches nothing else.
pub proof fn opening_writes_the_config(a: Initialize, program_id: Seq<u8>)
    ensures
        a.fault_in(program_id) is None ==> {
            let after = with_config(a, first_config(a, program_id));
            let c = after.config.data.unwrap();
            &&& after.config.data is Some
            &&& c.admin == a.admin.key
            &&& c.locked_lamports == 0
            &&& canonical(seq![CONFIG_SEED@], program_id) == Some((a.config.key.bytes@, c.bump))
            &&& canonical(seq![TREASURY_SEED@], program_id) == Some(
                (a.treasury.key.bytes@, c.treasury_bump),
            )
            &&& after.config.key == a.config.key
            &&& after.admin == a.admin
            &&& after.treasury == a.treasury
        },
{
}

/// Whatever config is written, it is there afterwards, and only it changes.
pub proof fn written_config_is_there(a: Initialize, config: Config)
    ensures
        with_config(a, config).config.data == Some(config),
        with_config(a, config).config.key == a.config.key,
        with_config(a, config).admin == a.admin,
        with_config(a, config).treasury == a.treasury,
{
}

/// An accepted bet locks twice its amount and changes nothing else of the
/// config.
pub proof fn bet_locks_twice_its_amount(c: Config, amount: u64)
    requires
        c.locked_lamports + 2 * amount <= u64::MAX,
    ensures
        locking(c, amount).locked_lamports == c.locked_lamports + 2 * amount,
        locking(c, amount).admin == c.admin,
        locking(c, amount).bump == c.bump,
        locking(c, amount).treasury_bump == c.treasury_bump,
{
}

/// A settled or expired bet releases twice its amount and changes nothing else
/// of the config.
pub proof fn bet_releases_twice_its_amount(c: Config, b: Bet)
    requires
        2 * b.amount <= c.locked_lamports,
    ensures
        releasing(c, b).locked_lamports == c.locked_lamports - 2 * b.amount,
        releasing(c, b).admin == c.admin,
        releasing(c, b).bump == c.bump,
        releasing(c, b).treasury_bump == c.treasury_bump,
{
}

/// What is locked for a bet is what is released for it.
pub proof fn release_undoes_the_lock(c: Config, b: Bet)
    requires
        c.locked_lamports + 2 * b.amount <= u64::MAX,
    ensures
        releasing(locking(c, b.amount), b) == c,
{
}

/// A recorded bet is the one that was placed, for the slot two ahead.
pub proof fn bet_is_recorded_as_placed(
    player: Pubkey,
    bump: u8,
    slot: u64,
    nonce: u64,
    amount: u64,
    choice: Choice,
)
    requires
        slot + 2 <= u64::MAX,
    ensures
        ({
            let b = new_bet(player, bump, slot, nonce, amount, choice);
            &&& b.player == player
            &&& b.bump == bump
            &&& b.target_slot == slot + 2
            &&& b.nonce == nonce
            &&& b.amount == amount
            &&& b.choice == choice
        }),
{
}

/// What an accepted `place_bet` does: the player's deposit of the amount goes
/// to the treasury, twice the amount is locked, the bet is recorded as placed
/// for the slot two ahead with its canonical bump, and that is reported.
pub proof fn placing_takes_the_deposit_and_records_the_bet(
    a: PlaceBet,
    program_id: Seq<u8>,
    rent_min: u64,
    slot: u64,
    nonce: u64,
    amount: u64,
    choice: Choice,
)
    ensures
        place_bet_refusal(a, program_id, rent_min, slot, nonce, amount) is None ==> {
            let bet = placed_bet(a, program_id, slot, nonce, amount, choice);
            let p = placement(a, bet);
            let after = with_bet(a, bet);
            let c = a.config.data.unwrap();
            let d = after.config.data.unwrap();
            let b = after.bet.data.unwrap();
            &&& p.deposit.from == a.player.key
            &&& p.deposit.to == a.treasury.key
            &&& p.deposit.lamports == amount
            &&& p.event.player == a.player.key
            &&& p.event.nonce == nonce
            &&& p.event.amount == amount
            &&& p.event.choice == choice
            &&& p.event.target_slot == slot + 2
            &&& after.config.data is Some
            &&& d.locked_lamports == c.locked_lamports + 2 * amount
            &&& d.admin == c.admin
            &&& d.bump == c.bump
            &&& d.treasury_bump == c.treasury_bump
            &&& after.bet.data is Some
            &&& b.player == a.player.key
            &&& b.amount == amount
            &&& b.choice == choice
            &&& b.target_slot == slot + 2
            &&& b.nonce == nonce
            &&& canonical(
                seq![BET_SEED@, a.player.key.bytes@, le_bytes(nonce)],
                program_id,
            ) == Some((a.bet.key.bytes@, b.bump))
            &&& after.config.key == a.config.key
            &&& after.bet.key == a.bet.key
            &&& after.player == a.player
            &&& after.treasury == a.treasury
        },
{
    assert(bet_seeds(a.player.key@, nonce) =~= seq![
        BET_SEED@,
        a.player.key.bytes@,
        le_bytes(nonce),
    ]);
}

/// A placement answers for the bet that is handed to it, whatever that is, and
/// so do the accounts.
pub proof fn placement_answers_for_the_bet(a: PlaceBet, bet: Bet)
    ensures
        placement(a, bet).deposit.from == a.player.key,
        placement(a, bet).deposit.to == a.treasury.key,
        placement(a, bet).deposit.lamports == bet.amount,
        placement(a, bet).event.player == a.player.key,
        placement(a, bet).event.nonce == bet.nonce,
        placement(a, bet).event.amount == bet.amount,
        placement(a, bet).event.choice == bet.choice,
        placement(a, bet).event.target_slot == bet.target_slot,
        with_bet(a, bet).bet.data == Some(bet),
        with_bet(a, bet).bet.key == a.bet.key,
        with_bet(a, bet).config.key == a.config.key,
        a.config.data is Some ==> with_bet(a, bet).config.data == Some(
            locking(a.config.data.unwrap(), bet.amount),
        ),
        with_bet(a, bet).player == a.player,
        with_bet(a, bet).treasury == a.treasury,
{
}

/// The digest that decides a bet is the SHA-256 of exactly the hash stored for
/// its target slot, the bet's address and the target slot.
pub proof fn stored_hash_decides_the_bet(
    a: SettleBet,
    count: u64,
    pairs: Seq<(u64, Seq<u8>)>,
    rest: Seq<u8>,
    i: int,
)
    requires
        are_hashes(pairs),
        0 <= i < pairs.len(),
        i < count,
        forall|j: int| 0 <= j < i ==> (#[trigger] pairs[j]).0 > pairs[i].0,
        a.bet.data is Some,
        pairs[i].0 == a.bet.data.unwrap().target_slot,
    ensures
        deciding_digest(a.bet, le_bytes(count) + listed(pairs) + rest) == sha256(
            seq![pairs[i].1, a.bet.key.bytes@, le_bytes(pairs[i].0)],
        ),
{
    table_gives_the_stored_hash(count, pairs, rest, i);
}

/// What settling on a digest does. If its first eight bytes spell a number
/// that is below 49 modulo a hundred, the treasury pays the player twice the
/// bet and the coin shows the chosen side; else nothing is paid and it shows
/// the other side. Either way the bet account is closed to the player.
pub proof fn settling_pays_twice_the_bet_to_a_winner(a: SettleBet, digest: Seq<u8>)
    requires
        a.bet.data is Some,
        2 * a.bet.data.unwrap().amount <= u64::MAX,
    ensures
        ({
            let b = a.bet.data.unwrap();
            let s = settlement(a, digest);
            let win = le_value(digest.subrange(0, 8)) % 100 < 49;
            &&& wins(digest) == win
            &&& s.payout is Some <==> win
            &&& win ==> {
                let t = s.payout.unwrap();
                &&& t.from == a.treasury.key
                &&& t.to == a.player
                &&& t.lamports == 2 * b.amount
            }
            &&& s.close.account == a.bet.key
            &&& s.close.destination == a.player
            &&& s.event.player == b.player
            &&& s.event.nonce == b.nonce
            &&& s.event.amount == b.amount
            &&& s.event.choice == b.choice
            &&& s.event.win == win
            &&& s.event.result == b.choice <==> win
            &&& win ==> s.event.payout == 2 * b.amount
            &&& !win ==> s.event.payout == 0
        }),
{
}

/// What settling a bet whose payout is locked leaves: twice the bet is
/// released, the bet is gone and everything else is as it was.
pub proof fn settling_releases_and_closes(a: SettleBet)
    requires
        a.config.data is Some,
        a.bet.data is Some,
        2 * a.bet.data.unwrap().amount <= a.config.data.unwrap().locked_lamports,
    ensures
        ({
            let after = after_settlement(a);
            let c = a.config.data.unwrap();
            let d = after.config.data.unwrap();
            &&& after.config.data is Some
            &&& d.locked_lamports == c.locked_lamports - 2 * a.bet.data.unwrap().amount
            &&& d.admin == c.admin
            &&& d.bump == c.bump
            &&& d.treasury_bump == c.treasury_bump
            &&& after.bet.data is None
            &&& after.config.key == a.config.key
            &&& after.bet.key == a.bet.key
            &&& after.treasury == a.treasury
            &&& after.player == a.player
            &&& after.slot_hashes == a.slot_hashes
        }),
{
}

/// What expiring a bet whose payout is locked does: twice the bet is released,
/// the bet is closed to the player, that is reported, and everything else is
/// as it was.
pub proof fn expiring_releases_and_closes(a: ExpireBet)
    requires
        a.config.data is Some,
        a.bet.data is Some,
        2 * a.bet.data.unwrap().amount <= a.config.data.unwrap().locked_lamports,
    ensures
        ({
            let after = after_expiry(a);
            let b = a.bet.data.unwrap();
            let c = a.config.data.unwrap();
            let d = after.config.data.unwrap();
            &&& expiry(a).close.account == a.bet.key
            &&& expiry(a).close.destination == a.player
            &&& expiry(a).event.player == b.player
            &&& expiry(a).event.nonce == b.nonce
            &&& expiry(a).event.amount == b.amount
            &&& after.config.data is Some
            &&& d.locked_lamports == c.locked_lamports - 2 * b.amount
            &&& d.admin == c.admin
            &&& d.bump == c.bump
            &&& d.treasury_bump == c.treasury_bump
            &&& after.bet.data is None
            &&& after.config.key == a.config.key
            &&& after.bet.key == a.bet.key
            &&& after.player == a.player
        }),
{
}

} // verus!
