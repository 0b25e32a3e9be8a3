//! The house as a whole: the treasury, the config and every pending bet, and
//! what holds of them whatever instructions are run.

use vstd::prelude::*;

use crate::accounts::{
    Account, ExpireBet, FundTreasury, Initialize, PlaceBet, SettleBet, SystemAccount,
    WithdrawHouse,
};
use crate::actions::gain_of;
use crate::bytes::le_value;
use crate::constants::{MAX_BET_LAMPORTS, MIN_BET_LAMPORTS};
use crate::error::{CoinflipError, InstructionError};
use crate::program::{
    after_expiry, after_settlement, deadline, deciding_digest, expire_bet_refusal,
    first_config, funding, place_bet_refusal, placed_bet, placement, refusal, release_breaks,
    settle_bet_refusal, settlement, top_up, window_breaks, with_bet, with_config, withdrawal,
    withdraw_house_refusal,
};
use crate::pubkey::Pubkey;
use crate::state::{Bet, Choice, Config};

verus! {

/// The state of the house.
pub struct House {
    pub config_key: Pubkey,
    pub treasury_key: Pubkey,
    /// What the treasury has to hold to be rent-exempt.
    pub rent_min: u64,
    pub config: Config,
    /// The treasury's balance.
    pub treasury: int,
    /// The open bet accounts.
    pub bets: Map<Pubkey, Bet>,
}

/// The sum of the payouts of some bets.
pub open spec fn total_payout(bets: Map<Pubkey, Bet>) -> int
    decreases bets.dom().len(),
{
    if bets.dom().finite() && bets.dom().len() > 0 {
        let key = bets.dom().choose();
        2 * bets[key].amount + total_payout(bets.remove(key))
    } else {
        0
    }
}

/// Any one bet can be taken out of the sum.
proof fn total_without(bets: Map<Pubkey, Bet>, key: Pubkey)
    requires
        bets.dom().finite(),
        bets.contains_key(key),
    ensures
        total_payout(bets) == 2 * bets[key].amount + total_payout(bets.remove(key)),
    decreases bets.dom().len(),
{
    let first = bets.dom().choose();
    if first != key {
        total_without(bets.remove(first), key);
        total_without(bets.remove(key), first);
        assert(bets.remove(first).remove(key) =~= bets.remove(key).remove(first));
    }
}

proof fn total_is_not_negative(bets: Map<Pubkey, Bet>)
    ensures
        0 <= total_payout(bets),
    decreases bets.dom().len(),
{
    if bets.dom().finite() && bets.dom().len() > 0 {
        total_is_not_negative(bets.remove(bets.dom().choose()));
    }
}

impl House {
    /// What always holds: the locked lamports are the payouts of the pending
    /// bets, the treasury covers them and its rent minimum, every pending bet
    /// keeps to the limits, and no bet is the treasury's own.
    pub open spec fn inv(self) -> bool {
        &&& self.bets.dom().finite()
        &&& self.config.locked_lamports == total_payout(self.bets)
        &&& self.treasury >= self.rent_min + self.config.locked_lamports
        &&& forall|key: Pubkey| #[trigger]
            self.bets.contains_key(key) ==> {
                &&& MIN_BET_LAMPORTS <= self.bets[key].amount <= MAX_BET_LAMPORTS
                &&& self.bets[key].player != self.treasury_key
            }
    }

    /// The config account.
    pub open spec fn config_account(self) -> Account<Config> {
        Account { key: self.config_key, data: Some(self.config) }
    }

    /// The treasury account.
    pub open spec fn treasury_account(self) -> SystemAccount {
        SystemAccount { key: self.treasury_key, lamports: self.treasury as u64 }
    }

    /// The bet account at `key`.
    pub open spec fn bet_account(self, key: Pubkey) -> Account<Bet> {
        Account {
            key,
            data: if self.bets.contains_key(key) {
                Some(self.bets[key])
            } else {
                None
            },
        }
    }
}

/// An instruction with all that it is given.
pub enum Step {
    Initialize { accounts: Initialize },
    Fund { accounts: FundTreasury, amount: u64 },
    Place { accounts: PlaceBet, slot: u64, nonce: u64, amount: u64, choice: Choice },
    Settle { accounts: SettleBet, slot: u64, data: Seq<u8> },
    Expire { accounts: ExpireBet, slot: u64 },
    Withdraw { accounts: WithdrawHouse, amount: u64 },
}

impl Step {
    /// The accounts given are the house's as they stand. No funder or player
    /// has the treasury's address: it is a derived one, which nobody signs for.
    pub open spec fn is_on(self, house: House) -> bool {
        &&& 0 <= house.treasury <= u64::MAX
        &&& match self {
            Step::Initialize { accounts } => {
                &&& accounts.config == house.config_account()
                &&& accounts.treasury == house.treasury_account()
            },
            Step::Fund { accounts, amount } => {
                &&& accounts.treasury == house.treasury_account()
                &&& accounts.funder.key != house.treasury_key
            },
            Step::Place { accounts, slot, nonce, amount, choice } => {
                &&& accounts.config == house.config_account()
                &&& accounts.treasury == house.treasury_account()
                &&& accounts.bet == house.bet_account(accounts.bet.key)
                &&& accounts.player.key != house.treasury_key
            },
            Step::Settle { accounts, slot, data } => {
                &&& accounts.config == house.config_account()
                &&& accounts.treasury == house.treasury_account()
                &&& accounts.bet == house.bet_account(accounts.bet.key)
            },
            Step::Expire { accounts, slot } => {
                &&& accounts.config == house.config_account()
                &&& accounts.bet == house.bet_account(accounts.bet.key)
            },
            Step::Withdraw { accounts, amount } => {
                &&& accounts.config == house.config_account()
                &&& accounts.treasury == house.treasury_account()
            },
        }
    }

    /// Why the instruction is refused, if it is.
    pub open spec fn refused(self, program_id: Seq<u8>, rent_min: u64) -> Option<InstructionError> {
        match self {
            Step::Initialize { accounts } => refusal(accounts.fault_in(program_id), None),
            Step::Fund { accounts, amount } => refusal(accounts.fault_in(program_id), None),
            Step::Place { accounts, slot, nonce, amount, choice } => place_bet_refusal(
                accounts,
                program_id,
                rent_min,
                slot,
                nonce,
                amount,
            ),
            Step::Settle { accounts, slot, data } => settle_bet_refusal(
                accounts,
                program_id,
                slot,
                data,
            ),
            Step::Expire { accounts, slot } => expire_bet_refusal(accounts, program_id, slot),
            Step::Withdraw { accounts, amount } => withdraw_house_refusal(
                accounts,
                program_id,
                rent_min,
                amount,
            ),
        }
    }

    /// The house once the instruction has been accepted and what it asks of
    /// the runtime has been done.
    pub open spec fn accepted(self, house: House, program_id: Seq<u8>) -> House {
        match self {
            Step::Initialize { accounts } => opened(accounts, program_id, house.rent_min),
            Step::Fund { accounts, amount } => House {
                treasury: house.treasury + funding(accounts, amount).gain(house.treasury_key),
                ..house
            },
            Step::Place { accounts, slot, nonce, amount, choice } => {
                let bet = placed_bet(accounts, program_id, slot, nonce, amount, choice);
                House {
                    config: with_bet(accounts, bet).config.data.unwrap(),
                    treasury: house.treasury + placement(accounts, bet).deposit.gain(
                        house.treasury_key,
                    ),
                    bets: house.bets.insert(
                        accounts.bet.key,
                        with_bet(accounts, bet).bet.data.unwrap(),
                    ),
                    ..house
                }
            },
            Step::Settle { accounts, slot, data } => House {
                config: after_settlement(accounts).config.data.unwrap(),
                treasury: house.treasury + gain_of(
                    settlement(accounts, deciding_digest(accounts.bet, data)).payout,
                    house.treasury_key,
                ),
                bets: house.bets.remove(accounts.bet.key),
                ..house
            },
            Step::Expire { accounts, slot } => House {
                config: after_expiry(accounts).config.data.unwrap(),
                bets: house.bets.remove(accounts.bet.key),
                ..house
            },
            Step::Withdraw { accounts, amount } => House {
                treasury: house.treasury + withdrawal(accounts, amount).gain(house.treasury_key),
                ..house
            },
        }
    }

    /// The house after the instruction, refused or not.
    pub open spec fn run(self, house: House, program_id: Seq<u8>) -> House {
        if self.refused(program_id, house.rent_min) is Some {
            house
        } else {
            self.accepted(house, program_id)
        }
    }
}

/// The house that an accepted `initialize` opens.
pub open spec fn opened(accounts: Initialize, program_id: Seq<u8>, rent_min: u64) -> House {
    House {
        config_key: accounts.config.key,
        treasury_key: accounts.treasury.key,
        rent_min,
        config: with_config(accounts, first_config(accounts, program_id)).config.data.unwrap(),
        treasury: accounts.treasury.lamports + gain_of(
            top_up(accounts, rent_min),
            accounts.treasury.key,
        ),
        bets: Map::empty(),
    }
}

/// A house opens solvent, with no bets: the treasury holds its rent minimum,
/// or what it held before if that was more.
pub proof fn house_opens_solvent(accounts: Initialize, program_id: Seq<u8>, rent_min: u64)
    requires
        accounts.admin.key != accounts.treasury.key,
    ensures
        opened(accounts, program_id, rent_min).inv(),
        opened(accounts, program_id, rent_min).treasury == if accounts.treasury.lamports
            < rent_min {
            rent_min
        } else {
            accounts.treasury.lamports
        },
{
}

/// Solvency: every instruction, accepted or refused, keeps what always holds
/// of the house. The treasury can honor every pending bet before and after.
pub proof fn step_keeps_house_solvent(house: House, step: Step, program_id: Seq<u8>)
    requires
        house.inv(),
        step.is_on(house),
    ensures
        step.run(house, program_id).inv(),
{
    if step.refused(program_id, house.rent_min) is None {
        match step {
            Step::Initialize { accounts } => {
                // A house that is open cannot be opened again.
                assert(accounts.fault_in(program_id) is Some);
            },
            Step::Fund { accounts, amount } => {},
            Step::Place { accounts, slot, nonce, amount, choice } => {
                let bet = placed_bet(accounts, program_id, slot, nonce, amount, choice);
                let bets = house.bets.insert(accounts.bet.key, bet);
                assert(!house.bets.contains_key(accounts.bet.key));
                assert(bets.contains_key(accounts.bet.key));
                total_without(bets, accounts.bet.key);
                assert(bets.remove(accounts.bet.key) =~= house.bets);
            },
            Step::Settle { accounts, slot, data } => {
                assert(house.bets.contains_key(accounts.bet.key));
                total_without(house.bets, accounts.bet.key);
            },
            Step::Expire { accounts, slot } => {
                assert(house.bets.contains_key(accounts.bet.key));
                total_without(house.bets, accounts.bet.key);
            },
            Step::Withdraw { accounts, amount } => {},
        }
    }
}

/// In every run that starts from a house for which it holds, what always
/// holds of the house holds in every state.
pub proof fn run_keeps_house_solvent(states: Seq<House>, steps: Seq<Step>, program_id: Seq<u8>)
    requires
        states.len() == steps.len() + 1,
        states[0].inv(),
        forall|i: int|
            0 <= i < steps.len() ==> {
                &&& (#[trigger] steps[i]).is_on(states[i])
                &&& states[i + 1] == steps[i].run(states[i], program_id)
            },
    ensures
        forall|i: int| 0 <= i < states.len() ==> (#[trigger] states[i]).inv(),
    decreases steps.len(),
{
    if steps.len() > 0 {
        let n: int = steps.len() - 1;
        run_keeps_house_solvent(states.drop_last(), steps.drop_last(), program_id);
        assert(states.drop_last()[n] == states[n]);
        assert(states[n].inv());
        assert(steps[n].is_on(states[n]));
        step_keeps_house_solvent(states[n], steps[n], program_id);
        assert forall|i: int| 0 <= i < states.len() implies (#[trigger] states[i]).inv() by {
            if i < states.len() - 1 {
                assert(states.drop_last()[i] == states[i]);
            }
        }
    }
}

/// The treasury can pay any pending bet without touching its rent minimum,
/// and the bet's payout can always be released.
pub proof fn every_bet_is_payable(house: House, key: Pubkey)
    requires
        house.inv(),
        house.bets.contains_key(key),
    ensures
        2 * house.bets[key].amount <= house.treasury - house.rent_min,
        release_breaks(house.config, house.bets[key]) is None,
{
    total_without(house.bets, key);
    total_is_not_negative(house.bets.remove(key));
}

/// A pending bet is settled as soon as its accounts, the clock and the
/// SlotHashes data allow it: the house's funds are never in the way.
pub proof fn funds_never_block_settlement(
    house: House,
    accounts: SettleBet,
    program_id: Seq<u8>,
    slot: u64,
    data: Seq<u8>,
)
    requires
        house.inv(),
        (Step::Settle { accounts, slot, data }).is_on(house),
    ensures
        settle_bet_refusal(accounts, program_id, slot, data) == refusal(
            accounts.fault_in(program_id),
            window_breaks(accounts.bet.data.unwrap(), slot, data),
        ),
{
    if house.bets.contains_key(accounts.bet.key) {
        every_bet_is_payable(house, accounts.bet.key);
    }
}

/// A pending bet is expired as soon as its accounts and the clock allow it.
pub proof fn funds_never_block_expiry(
    house: House,
    accounts: ExpireBet,
    program_id: Seq<u8>,
    slot: u64,
)
    requires
        house.inv(),
        (Step::Expire { accounts, slot }).is_on(house),
    ensures
        expire_bet_refusal(accounts, program_id, slot) == refusal(
            accounts.fault_in(program_id),
            if deadline(accounts.bet.data.unwrap()) > u64::MAX {
                Some(CoinflipError::MathOverflow)
            } else if slot <= deadline(accounts.bet.data.unwrap()) {
                Some(CoinflipError::NotExpired)
            } else {
                None
            },
        ),
{
    if house.bets.contains_key(accounts.bet.key) {
        every_bet_is_payable(house, accounts.bet.key);
    }
}

/// Each pending bet adds twice its amount to the payouts, and nothing else
/// does.
pub proof fn payouts_add_up(bets: Map<Pubkey, Bet>, key: Pubkey, bet: Bet)
    requires
        bets.dom().finite(),
        !bets.contains_key(key),
    ensures
        total_payout(Map::empty()) == 0,
        total_payout(bets.insert(key, bet)) == total_payout(bets) + 2 * bet.amount,
{
    let more = bets.insert(key, bet);
    total_without(more, key);
    assert(more.remove(key) =~= bets);
}

/// What always holds means that the treasury covers its rent minimum and all
/// pending payouts, which are what is locked.
pub proof fn solvent_house_covers_everything(house: House, key: Pubkey)
    requires
        house.inv(),
    ensures
        house.treasury >= house.rent_min + total_payout(house.bets),
        house.config.locked_lamports == total_payout(house.bets),
        house.bets.contains_key(key) ==> 100_000_000 <= house.bets[key].amount <= 10_000_000_000,
{
}

/// What each accepted instruction does to the house: funding adds the amount
/// to the treasury; a bet adds its amount, locks twice that and is pending; a
/// settled bet frees twice its amount, which leaves the treasury on a win
/// only; an expired bet frees as much and nothing leaves; a withdrawal takes
/// the amount out. Nothing else changes.
pub proof fn step_moves_what_it_should(house: House, step: Step, program_id: Seq<u8>)
    requires
        house.inv(),
        step.is_on(house),
    ensures
        step.refused(program_id, house.rent_min) is Some ==> step.run(house, program_id) == house,
        step.refused(program_id, house.rent_min) is None ==> {
            let after = step.run(house, program_id);
            let locked: int = house.config.locked_lamports as int;
            let locked_after: int = after.config.locked_lamports as int;
            match step {
                Step::Initialize { accounts } => false,
                Step::Fund { accounts, amount } => {
                    &&& after.treasury == house.treasury + amount
                    &&& locked_after == locked
                    &&& after.bets == house.bets
                },
                Step::Place { accounts, slot, nonce, amount, choice } => {
                    &&& after.treasury == house.treasury + amount
                    &&& locked_after == locked + 2 * amount
                    &&& !house.bets.contains_key(accounts.bet.key)
                    &&& after.bets.dom() == house.bets.dom().insert(accounts.bet.key)
                    &&& after.bets.remove(accounts.bet.key) == house.bets
                    &&& after.bets[accounts.bet.key].amount == amount
                    &&& after.bets[accounts.bet.key].player == accounts.player.key
                    &&& after.bets[accounts.bet.key].target_slot == slot + 2
                },
                Step::Settle { accounts, slot, data } => {
                    let amount: int = house.bets[accounts.bet.key].amount as int;
                    let digest = deciding_digest(accounts.bet, data);
                    &&& house.bets.contains_key(accounts.bet.key)
                    &&& after.treasury == house.treasury - if le_value(digest.subrange(0, 8)) % 100
                        < 49 {
                        2 * amount
                    } else {
                        0
                    }
                    &&& locked_after == locked - 2 * amount
                    &&& after.bets == house.bets.remove(accounts.bet.key)
                },
                Step::Expire { accounts, slot } => {
                    let amount: int = house.bets[accounts.bet.key].amount as int;
                    &&& house.bets.contains_key(accounts.bet.key)
                    &&& after.treasury == house.treasury
                    &&& locked_after == locked - 2 * amount
                    &&& after.bets == house.bets.remove(accounts.bet.key)
                },
                Step::Withdraw { accounts, amount } => {
                    &&& accounts.destination != house.treasury_key ==> after.treasury
                        == house.treasury - amount
                    &&& accounts.destination == house.treasury_key ==> after.treasury
                        == house.treasury
                    &&& locked_after == locked
                    &&& after.bets == house.bets
                },
            }
        },
{
    if step.refused(program_id, house.rent_min) is None {
        match step {
            Step::Initialize { accounts } => {
                assert(accounts.fault_in(program_id) is Some);
            },
            Step::Place { accounts, slot, nonce, amount, choice } => {
                let bet = placed_bet(accounts, program_id, slot, nonce, amount, choice);
                assert(house.bets.insert(accounts.bet.key, bet).remove(accounts.bet.key)
                    =~= house.bets);
            },
            Step::Settle { accounts, slot, data } => {
                assert(house.bets.contains_key(accounts.bet.key));
                assert(house.bets[accounts.bet.key].player != house.treasury_key);
            },
            _ => {},
        }
    }
}

} // verus!
