//! What the instructions promise together.

use vstd::prelude::*;

use crate::accounts::{
    derived_config, derived_treasury, is_at, ExpireBet, Initialize, PlaceBet, SettleBet,
    WithdrawHouse,
};
use crate::actions::{gain_of, Transfer};
use crate::addresses::{bet_seeds, canonical, canonical_is_derived, config_seeds, treasury_seeds};
use crate::constants::{COMMIT_DELAY_SLOTS, MAX_BET_LAMPORTS, SLOT_HASHES_ID};
use crate::error::{AccountError, CoinflipError, InstructionError};
use crate::house::{opened, House, Step};
use crate::outcome::{draw, gain_on, wins};
use crate::program::{
    after_expiry, after_settlement, deadline, deciding_digest, expire_bet_refusal, expiry,
    expiry_breaks, place_bet_refusal, placed_bet, placement, release_breaks, settle_bet_refusal,
    settlement, window_breaks, with_bet, withdraw_house_refusal, withdrawal,
};
use crate::pubkey::Pubkey;
use crate::slot_hashes::lookup;
use crate::state::Choice;

verus! {

/// A house opens once: on a config that exists `initialize` is refused.
pub proof fn house_opens_once(accounts: Initialize, program_id: Seq<u8>)
    requires
        accounts.config.data is Some,
    ensures
        accounts.fault_in(program_id) is Some,
        accounts.admin.signed && (canonical(config_seeds(), program_id) matches Some((k, _)) && k
            == accounts.config.key@) ==> accounts.fault_in(program_id) == Some(
            AccountError::AccountAlreadyInUse,
        ),
{
}

/// The config and the treasury of a house that `initialize` has opened stand
/// at the addresses that every later instruction derives for them.
pub proof fn opened_house_is_recognized(
    accounts: Initialize,
    program_id: Seq<u8>,
    rent_min: u64,
)
    ensures
        accounts.fault_in(program_id) is None ==> {
            let house = opened(accounts, program_id, rent_min);
            &&& is_at(house.config_key, derived_config(house.config_account(), program_id))
            &&& is_at(house.treasury_key, derived_treasury(house.config_account(), program_id))
        },
{
    canonical_is_derived(config_seeds(), program_id);
    canonical_is_derived(treasury_seeds(), program_id);
}

/// The accounts with which anyone settles the bet just placed.
pub open spec fn to_settle(placed: PlaceBet, slot_hashes: Pubkey) -> SettleBet {
    SettleBet {
        config: placed.config,
        treasury: placed.treasury,
        bet: placed.bet,
        player: placed.player.key,
        slot_hashes,
    }
}

/// The accounts with which anyone expires the bet just placed.
pub open spec fn to_expire(placed: PlaceBet) -> ExpireBet {
    ExpireBet { config: placed.config, bet: placed.bet, player: placed.player.key }
}

/// A bet that `place_bet` has accepted is one that `settle_bet` and
/// `expire_bet` take: its accounts pass their checks.
pub proof fn placed_bet_is_recognized(
    accounts: PlaceBet,
    program_id: Seq<u8>,
    rent_min: u64,
    slot: u64,
    nonce: u64,
    amount: u64,
    choice: Choice,
    slot_hashes: Pubkey,
)
    requires
        accounts.bet.key != accounts.player.key,
        slot_hashes@ == SLOT_HASHES_ID@,
    ensures
        place_bet_refusal(accounts, program_id, rent_min, slot, nonce, amount) is None ==> {
            let placed = with_bet(
                accounts,
                placed_bet(accounts, program_id, slot, nonce, amount, choice),
            );
            &&& to_settle(placed, slot_hashes).fault_in(program_id) is None
            &&& to_expire(placed).fault_in(program_id) is None
        },
{
    canonical_is_derived(bet_seeds(accounts.player.key@, nonce), program_id);
}

/// No double settlement: a settled bet is closed, and a closed bet can be
/// neither settled nor expired.
pub proof fn settled_bet_is_gone(accounts: SettleBet, program_id: Seq<u8>, slot: u64, data: Seq<u8>)
    ensures
        after_settlement(accounts).bet.data is None,
        settle_bet_refusal(after_settlement(accounts), program_id, slot, data) == Some(
            InstructionError::Account(AccountError::AccountNotInitialized),
        ),
        expire_bet_refusal(
            (ExpireBet {
                config: after_settlement(accounts).config,
                bet: after_settlement(accounts).bet,
                player: accounts.player,
            }),
            program_id,
            slot,
        ) == Some(InstructionError::Account(AccountError::AccountNotInitialized)),
{
}

/// An expired bet is closed, and can be neither expired again nor settled.
pub proof fn expired_bet_is_gone(
    accounts: ExpireBet,
    settling: SettleBet,
    program_id: Seq<u8>,
    slot: u64,
    data: Seq<u8>,
)
    requires
        settling.bet == after_expiry(accounts).bet,
    ensures
        after_expiry(accounts).bet.data is None,
        expire_bet_refusal(after_expiry(accounts), program_id, slot) == Some(
            InstructionError::Account(AccountError::AccountNotInitialized),
        ),
        settle_bet_refusal(settling, program_id, slot, data) == Some(
            InstructionError::Account(AccountError::AccountNotInitialized),
        ),
{
}

/// Commit, then reveal: a bet is decided by a slot that lies ahead when it is
/// placed, and up to that slot it cannot be settled, whatever the SlotHashes
/// data holds.
pub proof fn outcome_is_not_known_when_placed(
    accounts: PlaceBet,
    program_id: Seq<u8>,
    rent_min: u64,
    slot: u64,
    nonce: u64,
    amount: u64,
    choice: Choice,
    later: u64,
    data: Seq<u8>,
)
    ensures
        place_bet_refusal(accounts, program_id, rent_min, slot, nonce, amount) is None ==> {
            let bet = placed_bet(accounts, program_id, slot, nonce, amount, choice);
            &&& bet.target_slot == slot + COMMIT_DELAY_SLOTS
            &&& bet.target_slot > slot
            &&& later <= bet.target_slot ==> window_breaks(bet, later, data) == Some(
                CoinflipError::TooEarly,
            )
        },
{
}

/// At any time a bet can be settled or expired or neither, never both. Up to
/// the target slot it is neither; then it can be settled, for the length of
/// the window; from then on it can be expired.
pub proof fn windows_do_not_overlap(accounts: SettleBet, slot: u64, data: Seq<u8>)
    requires
        accounts.bet.data is Some,
        accounts.config.data is Some,
        deadline(accounts.bet.data.unwrap()) <= u64::MAX,
    ensures
        ({
            let bet = accounts.bet.data.unwrap();
            let config = accounts.config.data.unwrap();
            let settle = window_breaks(bet, slot, data);
            let expire = expiry_breaks(config, bet, slot);
            if slot <= bet.target_slot {
                &&& settle == Some(CoinflipError::TooEarly)
                &&& expire == Some(CoinflipError::NotExpired)
            } else if slot <= deadline(bet) {
                &&& settle == if lookup(data, bet.target_slot as int) is Some {
                    None
                } else {
                    Some(CoinflipError::SlotHashNotFound)
                }
                &&& expire == Some(CoinflipError::NotExpired)
            } else {
                &&& settle == Some(CoinflipError::SettleWindowPassed)
                &&& expire == release_breaks(config, bet)
            }
        }),
{
}

/// Once the target slot has been produced the outcome is fixed: it does not
/// depend on who settles, when, the side chosen or the state of the house,
/// but on the bet's address and the target slot and its hash alone.
pub proof fn outcome_is_fixed(
    accounts: SettleBet,
    other: SettleBet,
    data: Seq<u8>,
    other_data: Seq<u8>,
)
    requires
        accounts.bet.data is Some,
        other.bet.data is Some,
        accounts.bet.key@ == other.bet.key@,
        accounts.bet.data.unwrap().target_slot == other.bet.data.unwrap().target_slot,
        lookup(data, accounts.bet.data.unwrap().target_slot as int) == lookup(
            other_data,
            accounts.bet.data.unwrap().target_slot as int,
        ),
    ensures
        settlement(accounts, deciding_digest(accounts.bet, data)).event.win == settlement(
            other,
            deciding_digest(other.bet, other_data),
        ).event.win,
{
}

/// Whoever settles, the payout comes from the treasury, is twice the bet and
/// goes to the recorded player, as does the rent of the bet account.
pub proof fn payout_goes_to_the_player(
    accounts: SettleBet,
    program_id: Seq<u8>,
    slot: u64,
    data: Seq<u8>,
)
    ensures
        settle_bet_refusal(accounts, program_id, slot, data) is None ==> {
            let bet = accounts.bet.data.unwrap();
            let settled = settlement(accounts, deciding_digest(accounts.bet, data));
            &&& settled.payout == if wins(deciding_digest(accounts.bet, data)) {
                Some(
                    Transfer {
                        from: accounts.treasury.key,
                        to: bet.player,
                        lamports: (2 * bet.amount) as u64,
                    },
                )
            } else {
                None
            }
            &&& 2 * bet.amount <= u64::MAX
            &&& settled.close.account == accounts.bet.key
            &&& settled.close.destination == bet.player
        },
{
}

/// The rent of an expired bet account goes to the recorded player.
pub proof fn expiry_refunds_rent_to_the_player(
    accounts: ExpireBet,
    program_id: Seq<u8>,
    slot: u64,
)
    ensures
        expire_bet_refusal(accounts, program_id, slot) is None ==> {
            &&& expiry(accounts).close.account == accounts.bet.key
            &&& expiry(accounts).close.destination == accounts.bet.data.unwrap().player
        },
{
}

/// Over placing and settling, a winner is up by the bet and a loser is down
/// by it.
pub proof fn winner_nets_the_bet(
    placing: PlaceBet,
    settling: SettleBet,
    program_id: Seq<u8>,
    rent_min: u64,
    slot: u64,
    nonce: u64,
    amount: u64,
    choice: Choice,
    later: u64,
    data: Seq<u8>,
)
    requires
        placing.player.key != placing.treasury.key,
        settling.treasury.key == placing.treasury.key,
        settling.bet == with_bet(
            placing,
            placed_bet(placing, program_id, slot, nonce, amount, choice),
        ).bet,
    ensures
        place_bet_refusal(placing, program_id, rent_min, slot, nonce, amount) is None
            && settle_bet_refusal(settling, program_id, later, data) is None ==> {
            let bet = placed_bet(placing, program_id, slot, nonce, amount, choice);
            let digest = deciding_digest(settling.bet, data);
            placement(placing, bet).deposit.gain(bet.player) + gain_of(
                settlement(settling, digest).payout,
                bet.player,
            ) == gain_on(draw(digest), amount as int)
        },
{
}

/// A single flip costs the house at most the largest bet.
pub proof fn loss_on_a_flip_is_capped(
    placing: PlaceBet,
    settling: SettleBet,
    program_id: Seq<u8>,
    rent_min: u64,
    slot: u64,
    nonce: u64,
    amount: u64,
    choice: Choice,
    data: Seq<u8>,
)
    requires
        placing.player.key != placing.treasury.key,
        settling.treasury.key == placing.treasury.key,
        settling.bet == with_bet(
            placing,
            placed_bet(placing, program_id, slot, nonce, amount, choice),
        ).bet,
    ensures
        place_bet_refusal(placing, program_id, rent_min, slot, nonce, amount) is None ==> {
            let bet = placed_bet(placing, program_id, slot, nonce, amount, choice);
            placement(placing, bet).deposit.gain(placing.treasury.key) + gain_of(
                settlement(settling, deciding_digest(settling.bet, data)).payout,
                placing.treasury.key,
            ) >= -MAX_BET_LAMPORTS
        },
{
}

/// Letting a bet rot gains nothing: what expiry leaves of the house is what
/// losing leaves, and never less than what settling leaves.
pub proof fn expiry_favors_the_house(
    house: House,
    settling: SettleBet,
    expiring: ExpireBet,
    program_id: Seq<u8>,
    slot: u64,
    later: u64,
    data: Seq<u8>,
)
    requires
        settling.config == house.config_account(),
        settling.treasury == house.treasury_account(),
        settling.bet == house.bet_account(settling.bet.key),
        expiring.config == settling.config,
        expiring.bet == settling.bet,
        expiring.player == settling.player,
        settling.player != house.treasury_key,
    ensures
        ({
            let settled = (Step::Settle { accounts: settling, slot, data }).accepted(
                house,
                program_id,
            );
            let expired = (Step::Expire { accounts: expiring, slot: later }).accepted(
                house,
                program_id,
            );
            &&& expired.treasury == house.treasury
            &&& settled.treasury <= expired.treasury
            &&& !wins(deciding_digest(settling.bet, data)) ==> settled == expired
        }),
{
}

/// Only the admin withdraws, with a signature, and never what is reserved for
/// pending payouts nor the rent minimum.
pub proof fn only_the_admin_withdraws_profit(
    accounts: WithdrawHouse,
    program_id: Seq<u8>,
    rent_min: u64,
    amount: u64,
)
    ensures
        withdraw_house_refusal(accounts, program_id, rent_min, amount) is None ==> {
            &&& accounts.admin.signed
            &&& accounts.admin.key == accounts.config.data.unwrap().admin
            &&& accounts.treasury.lamports - withdrawal(accounts, amount).lamports >= rent_min
                + accounts.config.data.unwrap().locked_lamports
        },
{
}

/// No instruction but `initialize` names the admin, and none changes who it
/// is or where the house's accounts stand.
pub proof fn admin_stays(house: House, step: Step, program_id: Seq<u8>)
    requires
        step.is_on(house),
    ensures
        step.run(house, program_id).config.admin == house.config.admin,
        step.run(house, program_id).config.bump == house.config.bump,
        step.run(house, program_id).config.treasury_bump == house.config.treasury_bump,
        step.run(house, program_id).config_key == house.config_key,
        step.run(house, program_id).treasury_key == house.treasury_key,
{
}

/// A pending bet changes only by being settled or expired itself.
pub proof fn other_bets_stay(house: House, step: Step, program_id: Seq<u8>, key: Pubkey)
    requires
        step.is_on(house),
        house.bets.contains_key(key),
        !(step matches Step::Settle { accounts, .. } && accounts.bet.key == key),
        !(step matches Step::Expire { accounts, .. } && accounts.bet.key == key),
    ensures
        step.run(house, program_id).bets.contains_key(key),
        step.run(house, program_id).bets[key] == house.bets[key],
{
}

} // verus!
