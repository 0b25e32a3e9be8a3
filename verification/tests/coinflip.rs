//! Whole games: the accounts, the clock and the SlotHashes data are kept here,
//! and every instruction goes through the library.

use std::collections::HashMap;
use std::str::FromStr;

use anchor_lang::prelude::{Pubkey as ChainKey, Rent};
use anchor_lang::solana_program::hash::hashv;
use anchor_lang::solana_program::sysvar::slot_hashes;
use coinflip::accounts::{
    Account, ExpireBet, FundTreasury, Initialize, PlaceBet, SettleBet, Signer, SystemAccount,
    WithdrawHouse,
};
use coinflip::actions::{Close, Expiry, Placement, Settlement, Transfer};
use coinflip::error::{AccountError, CoinflipError, InstructionError};
use coinflip::events::{BetExpired, BetPlaced, BetSettled};
use coinflip::outcome::{outcome_digest, roll};
use coinflip::program::{
    expire_bet, fund_treasury, initialize, place_bet, settle_bet, withdraw_house,
};
use coinflip::pubkey::Pubkey;
use coinflip::state::{Bet, Choice, Config};

const MIN_BET: u64 = 100_000_000;
const MAX_BET: u64 = 10_000_000_000;
const WIN_PERCENT: u64 = 49;
const COMMIT_DELAY_SLOTS: u64 = 2;
const SETTLE_WINDOW_SLOTS: u64 = 512;
const SOL: u64 = 1_000_000_000;
const TREASURY_RENT_MIN: u64 = 890_880; // rent-exempt minimum for 0 bytes
const CONFIG_SPACE: usize = 8 + 32 + 8 + 1 + 1;
const BET_SPACE: usize = 8 + 32 + 8 + 1 + 8 + 8 + 1;

/// Why a transaction failed: an instruction was refused, or an account could
/// not pay.
#[derive(Clone, Copy, PartialEq, Eq, Debug)]
enum Failure {
    Refused(InstructionError),
    InsufficientFunds,
}

fn account(e: AccountError) -> Failure {
    Failure::Refused(InstructionError::Account(e))
}

fn rule(e: CoinflipError) -> Failure {
    Failure::Refused(InstructionError::Rule(e))
}

fn chain(key: Pubkey) -> ChainKey {
    ChainKey::new_from_array(key.bytes)
}

fn local(key: ChainKey) -> Pubkey {
    Pubkey { bytes: key.to_bytes() }
}

fn new_key() -> Pubkey {
    local(ChainKey::new_unique())
}

fn program_id() -> Pubkey {
    local(ChainKey::from_str("7ffE4JF4ZNCmnxQZWFxFT3ny9VDsf3LDJ1vbUNjLspX3").unwrap())
}

fn pda(seeds: &[&[u8]]) -> Pubkey {
    local(ChainKey::find_program_address(seeds, &chain(program_id())).0)
}

fn signer(key: Pubkey) -> Signer {
    Signer { key, signed: true }
}

/// SlotHashes data: the count, then slot and hash of each entry.
fn slot_hashes_data(entries: &[(u64, [u8; 32])]) -> Vec<u8> {
    let mut data = (entries.len() as u64).to_le_bytes().to_vec();
    for (slot, hash) in entries {
        data.extend_from_slice(&slot.to_le_bytes());
        data.extend_from_slice(hash);
    }
    data
}

struct Env {
    lamports: HashMap<Pubkey, u64>,
    config: Account<Config>,
    treasury: Pubkey,
    bets: HashMap<Pubkey, Bet>,
    slot: u64,
    slot_hashes: Vec<u8>,
    rent: Rent,
    admin: Pubkey,
}

impl Env {
    fn unopened() -> Self {
        let mut env = Env {
            lamports: HashMap::new(),
            config: Account { key: pda(&[b"config"]), data: None },
            treasury: pda(&[b"treasury"]),
            bets: HashMap::new(),
            slot: 1_000,
            slot_hashes: slot_hashes_data(&[]),
            rent: Rent::default(),
            admin: new_key(),
        };
        env.airdrop(env.admin, 1_000 * SOL);
        env
    }

    fn new() -> Self {
        let mut env = Env::unopened();
        env.initialize().unwrap();
        env
    }

    fn airdrop(&mut self, key: Pubkey, amount: u64) {
        *self.lamports.entry(key).or_insert(0) += amount;
    }

    fn new_player(&mut self, amount: u64) -> Pubkey {
        let key = new_key();
        self.airdrop(key, amount);
        key
    }

    fn balance(&self, key: Pubkey) -> u64 {
        self.lamports.get(&key).copied().unwrap_or(0)
    }

    fn rent_min(&self) -> u64 {
        self.rent.minimum_balance(0)
    }

    fn locked_lamports(&self) -> u64 {
        self.config.data.unwrap().locked_lamports
    }

    fn treasury_account(&self) -> SystemAccount {
        SystemAccount { key: self.treasury, lamports: self.balance(self.treasury) }
    }

    fn transfer(&mut self, t: Transfer) -> Result<(), Failure> {
        if self.balance(t.from) < t.lamports {
            return Err(Failure::InsufficientFunds);
        }
        *self.lamports.get_mut(&t.from).unwrap() -= t.lamports;
        *self.lamports.entry(t.to).or_insert(0) += t.lamports;
        Ok(())
    }

    fn close(&mut self, c: Close) {
        let rent = self.lamports.remove(&c.account).unwrap_or(0);
        self.airdrop(c.destination, rent);
    }

    fn initialize(&mut self) -> Result<(), Failure> {
        let mut accounts = Initialize {
            admin: signer(self.admin),
            config: self.config,
            treasury: self.treasury_account(),
        };
        let top_up = initialize(&mut accounts, &program_id(), self.rent_min())
            .map_err(Failure::Refused)?;
        self.transfer(Transfer {
            from: self.admin,
            to: self.config.key,
            lamports: self.rent.minimum_balance(CONFIG_SPACE),
        })?;
        if let Some(t) = top_up {
            self.transfer(t)?;
        }
        self.config = accounts.config;
        Ok(())
    }

    fn fund_treasury(&mut self, amount: u64) {
        let accounts =
            FundTreasury { funder: signer(self.admin), treasury: self.treasury_account() };
        let t = fund_treasury(&accounts, &program_id(), amount).unwrap();
        self.transfer(t).unwrap();
    }

    fn bet_pda(&self, player: Pubkey, nonce: u64) -> Pubkey {
        pda(&[b"bet", &player.bytes, &nonce.to_le_bytes()])
    }

    fn placing(&self, player: Pubkey, nonce: u64) -> PlaceBet {
        let key = self.bet_pda(player, nonce);
        PlaceBet {
            player: signer(player),
            config: self.config,
            treasury: self.treasury_account(),
            bet: Account { key, data: self.bets.get(&key).copied() },
        }
    }

    /// Gives the bet's address, its target slot and what was returned.
    fn place(
        &mut self,
        player: Pubkey,
        nonce: u64,
        amount: u64,
        choice: Choice,
    ) -> Result<(Pubkey, u64, Placement), Failure> {
        let mut accounts = self.placing(player, nonce);
        let placed = place_bet(
            &mut accounts,
            &program_id(),
            self.rent_min(),
            self.slot,
            nonce,
            amount,
            choice,
        )
        .map_err(Failure::Refused)?;
        let rent = self.rent.minimum_balance(BET_SPACE);
        if self.balance(player) < rent + amount {
            return Err(Failure::InsufficientFunds);
        }
        self.transfer(Transfer { from: player, to: accounts.bet.key, lamports: rent })?;
        self.transfer(placed.deposit)?;
        self.config = accounts.config;
        self.bets.insert(accounts.bet.key, accounts.bet.data.unwrap());
        Ok((accounts.bet.key, accounts.bet.data.unwrap().target_slot, placed))
    }

    fn place_bet(
        &mut self,
        player: Pubkey,
        nonce: u64,
        amount: u64,
        choice: u8,
    ) -> Result<(Pubkey, u64), Failure> {
        let choice = if choice == 0 { Choice::Heads } else { Choice::Tails };
        self.place(player, nonce, amount, choice).map(|(bet, target, _)| (bet, target))
    }

    fn settling(&self, bet: Pubkey, player: Pubkey) -> SettleBet {
        SettleBet {
            config: self.config,
            treasury: self.treasury_account(),
            bet: Account { key: bet, data: self.bets.get(&bet).copied() },
            player,
            slot_hashes: local(slot_hashes::ID),
        }
    }

    fn settle(&mut self, bet: Pubkey, player: Pubkey) -> Result<Settlement, Failure> {
        let mut accounts = self.settling(bet, player);
        let settled = settle_bet(&mut accounts, &program_id(), self.slot, &self.slot_hashes)
            .map_err(Failure::Refused)?;
        if let Some(t) = settled.payout {
            self.transfer(t)?;
        }
        self.close(settled.close);
        self.config = accounts.config;
        assert_eq!(accounts.bet.data, None);
        self.bets.remove(&bet);
        Ok(settled)
    }

    fn expire(&mut self, bet: Pubkey, player: Pubkey) -> Result<Expiry, Failure> {
        let mut accounts = ExpireBet {
            config: self.config,
            bet: Account { key: bet, data: self.bets.get(&bet).copied() },
            player,
        };
        let expired =
            expire_bet(&mut accounts, &program_id(), self.slot).map_err(Failure::Refused)?;
        self.close(expired.close);
        self.config = accounts.config;
        assert_eq!(accounts.bet.data, None);
        self.bets.remove(&bet);
        Ok(expired)
    }

    fn withdraw(&mut self, admin: Pubkey, amount: u64, destination: Pubkey) -> Result<(), Failure> {
        let accounts = WithdrawHouse {
            admin: signer(admin),
            config: self.config,
            treasury: self.treasury_account(),
            destination,
        };
        let t = withdraw_house(&accounts, &program_id(), self.rent_min(), amount)
            .map_err(Failure::Refused)?;
        self.transfer(t)
    }

    /// Moves past the target slot and installs a slot hash that makes the bet
    /// win or lose as requested.
    fn rig_outcome(&mut self, bet: Pubkey, target_slot: u64, want_win: bool) {
        let hash = find_rigged_hash(bet, target_slot, want_win);
        self.slot = target_slot + 1;
        self.slot_hashes = slot_hashes_data(&[(target_slot, hash)]);
    }

    /// The promise of solvency, and that the locked lamports are the pending
    /// payouts.
    fn assert_solvent(&self) {
        let pending: u64 = self.bets.values().map(|b| 2 * b.amount).sum();
        assert_eq!(self.locked_lamports(), pending);
        assert!(self.balance(self.treasury) >= self.rent_min() + pending);
    }
}

/// The outcome derivation, written out.
fn roll_for(slot_hash: [u8; 32], bet: Pubkey, target_slot: u64) -> u64 {
    let d = hashv(&[&slot_hash, &bet.bytes, &target_slot.to_le_bytes()]);
    u64::from_le_bytes(d.to_bytes()[..8].try_into().unwrap()) % 100
}

fn find_rigged_hash(bet: Pubkey, target_slot: u64, want_win: bool) -> [u8; 32] {
    for i in 0u64.. {
        let mut h = [0u8; 32];
        h[..8].copy_from_slice(&i.to_le_bytes());
        if (roll_for(h, bet, target_slot) < WIN_PERCENT) == want_win {
            return h;
        }
    }
    unreachable!()
}

#[test]
fn win_pays_double_and_releases_lock() {
    let mut env = Env::new();
    env.fund_treasury(50 * SOL);
    let player = env.new_player(10 * SOL);

    let amount = SOL;
    let (bet, target_slot) = env.place_bet(player, 0, amount, 0).unwrap();
    assert_eq!(env.locked_lamports(), 2 * amount);

    let treasury_after_bet = env.balance(env.treasury);
    let player_after_bet = env.balance(player);

    env.rig_outcome(bet, target_slot, true);
    // Settlement is permissionless: no account of it has to sign.
    env.settle(bet, player).unwrap();

    // Player receives the 2x payout plus the bet account rent.
    let bet_rent = player_after_bet
        + amount // what they should net
        + amount; // their stake back
    assert!(env.balance(player) > bet_rent); // payout + rent refund
    assert_eq!(env.balance(env.treasury), treasury_after_bet - 2 * amount);
    assert_eq!(env.locked_lamports(), 0);
    assert!(!env.bets.contains_key(&bet) && env.balance(bet) == 0);
}

#[test]
fn loss_keeps_bet_in_treasury() {
    let mut env = Env::new();
    env.fund_treasury(50 * SOL);
    let player = env.new_player(10 * SOL);

    let amount = SOL;
    let (bet, target_slot) = env.place_bet(player, 0, amount, 1).unwrap();
    let treasury_after_bet = env.balance(env.treasury);
    let player_after_bet = env.balance(player);

    env.rig_outcome(bet, target_slot, false);
    env.settle(bet, player).unwrap();

    // Treasury keeps the bet; player only got the bet account rent back.
    assert_eq!(env.balance(env.treasury), treasury_after_bet);
    assert!(env.balance(player) < player_after_bet + amount / 100);
    assert_eq!(env.locked_lamports(), 0);
}

#[test]
fn bet_size_limits_enforced() {
    let mut env = Env::new();
    env.fund_treasury(50 * SOL);
    let player = env.new_player(20 * SOL);

    assert!(env.place_bet(player, 0, MIN_BET - 1, 0).is_err());
    assert!(env.place_bet(player, 1, MAX_BET + 1, 0).is_err());
    assert!(env.place_bet(player, 2, MIN_BET, 0).is_ok());
    assert!(env.place_bet(player, 3, MAX_BET, 0).is_ok());
}

#[test]
fn insolvent_treasury_rejects_bets() {
    let mut env = Env::new();
    // Treasury can only cover 1 SOL of exposure.
    env.fund_treasury(SOL);
    let player = env.new_player(20 * SOL);

    // 2 SOL bet would need 2 SOL of house exposure: rejected.
    assert!(env.place_bet(player, 0, 2 * SOL, 0).is_err());
    // 1 SOL bet exactly matches available liquidity: accepted.
    assert!(env.place_bet(player, 1, SOL, 0).is_ok());
    // Liquidity is now fully locked; even the minimum bet is rejected
    // until the pending bet settles.
    assert!(env.place_bet(player, 2, MIN_BET, 0).is_err());
}

#[test]
fn cannot_settle_before_target_slot() {
    let mut env = Env::new();
    env.fund_treasury(50 * SOL);
    let player = env.new_player(10 * SOL);

    let (bet, target_slot) = env.place_bet(player, 0, SOL, 0).unwrap();
    // SlotHashes even *contains* the (future) slot; settling must still
    // fail because the clock has not passed the target slot.
    env.slot_hashes = slot_hashes_data(&[(target_slot, [7u8; 32])]);
    assert_eq!(env.settle(bet, player), Err(rule(CoinflipError::TooEarly)));
    assert_eq!(env.locked_lamports(), 2 * SOL); // still pending
    env.slot = target_slot;
    assert_eq!(env.settle(bet, player), Err(rule(CoinflipError::TooEarly)));
}

#[test]
fn cannot_settle_twice() {
    let mut env = Env::new();
    env.fund_treasury(50 * SOL);
    let player = env.new_player(10 * SOL);

    let (bet, target_slot) = env.place_bet(player, 0, SOL, 0).unwrap();
    env.rig_outcome(bet, target_slot, true);
    env.settle(bet, player).unwrap();
    // The bet account was closed; settling again must fail.
    assert_eq!(env.settle(bet, player), Err(account(AccountError::AccountNotInitialized)));
    assert_eq!(env.expire(bet, player), Err(account(AccountError::AccountNotInitialized)));
    assert_eq!(env.locked_lamports(), 0);
}

#[test]
fn expired_bet_forfeits_to_treasury() {
    let mut env = Env::new();
    env.fund_treasury(50 * SOL);
    let player = env.new_player(10 * SOL);

    let amount = SOL;
    let (bet, target_slot) = env.place_bet(player, 0, amount, 0).unwrap();
    let treasury_after_bet = env.balance(env.treasury);

    // Too early to expire while the settle window is open.
    env.slot = target_slot + 1;
    assert_eq!(env.expire(bet, player), Err(rule(CoinflipError::NotExpired)));

    // Past the window: settling fails (window passed), expiring succeeds.
    env.slot = target_slot + SETTLE_WINDOW_SLOTS + 1;
    env.slot_hashes = slot_hashes_data(&[(target_slot, [7u8; 32])]);
    assert_eq!(env.settle(bet, player), Err(rule(CoinflipError::SettleWindowPassed)));
    env.expire(bet, player).unwrap();

    // The bet stays in the treasury, the lock is released, the bet is gone.
    assert_eq!(env.balance(env.treasury), treasury_after_bet);
    assert_eq!(env.locked_lamports(), 0);
    assert!(!env.bets.contains_key(&bet) && env.balance(bet) == 0);
}

#[test]
fn withdraw_respects_locked_funds_and_admin_only() {
    let mut env = Env::new();
    env.fund_treasury(10 * SOL);
    let player = env.new_player(10 * SOL);
    env.place_bet(player, 0, SOL, 0).unwrap();

    // Treasury holds 10 (house) + 1 (bet) SOL + rent; 2 SOL is locked for
    // the pending payout, so at most 9 SOL is withdrawable.
    let admin = env.admin;
    let dest = new_key();
    assert!(env.withdraw(admin, 9 * SOL + 1, dest).is_err());
    env.withdraw(admin, 9 * SOL, dest).unwrap();
    assert_eq!(env.balance(dest), 9 * SOL);
    assert_eq!(
        env.balance(env.treasury),
        2 * SOL + TREASURY_RENT_MIN // exactly the locked payout + rent floor
    );

    // A non-admin signer must be rejected.
    let mallory = env.new_player(SOL);
    assert_eq!(
        env.withdraw(mallory, 1, mallory),
        Err(account(AccountError::ConstraintHasOne))
    );
}

#[test]
fn statistical_house_edge() {
    // Sanity-check the outcome derivation: over many random slot hashes the
    // win rate must approximate 49%.
    let bet = new_key();
    let mut wins = 0u32;
    let n = 100_000u32;
    for i in 0..n {
        let mut h = [0u8; 32];
        h[..4].copy_from_slice(&i.to_le_bytes());
        let h = hashv(&[&h]).to_bytes(); // diffuse the counter
        let rolled = roll(&outcome_digest(&h, &bet, 42));
        assert_eq!(rolled, roll_for(h, bet, 42));
        if rolled < WIN_PERCENT {
            wins += 1;
        }
    }
    let rate = wins as f64 / n as f64;
    assert!((rate - 0.49).abs() < 0.005, "win rate was {rate}");
}

#[test]
fn initialize_opens_the_house_once() {
    let mut env = Env::unopened();
    env.initialize().unwrap();
    let (_, bump) = ChainKey::find_program_address(&[b"config"], &chain(program_id()));
    let (_, treasury_bump) = ChainKey::find_program_address(&[b"treasury"], &chain(program_id()));
    assert_eq!(
        env.config.data,
        Some(Config { admin: env.admin, locked_lamports: 0, bump, treasury_bump })
    );
    assert_eq!(env.balance(env.treasury), TREASURY_RENT_MIN);
    assert_eq!(env.initialize(), Err(account(AccountError::AccountAlreadyInUse)));
    env.assert_solvent();
}

#[test]
fn initialize_tops_up_only_what_is_missing() {
    let mut env = Env::unopened();
    env.airdrop(env.treasury, 890_000);
    env.initialize().unwrap();
    assert_eq!(env.balance(env.treasury), TREASURY_RENT_MIN);

    let mut env = Env::unopened();
    env.airdrop(env.treasury, SOL);
    env.initialize().unwrap();
    assert_eq!(env.balance(env.treasury), SOL);
}

#[test]
fn initialize_checks_its_accounts() {
    let env = Env::unopened();
    let good = Initialize {
        admin: signer(env.admin),
        config: env.config,
        treasury: env.treasury_account(),
    };
    let unsigned = Initialize { admin: Signer { key: env.admin, signed: false }, ..good };
    let wrong_config = Initialize { config: Account { key: new_key(), data: None }, ..good };
    let wrong_treasury =
        Initialize { treasury: SystemAccount { key: new_key(), lamports: 0 }, ..good };
    for (mut accounts, e) in [
        (unsigned, AccountError::AccountNotSigner),
        (wrong_config, AccountError::ConstraintSeeds),
        (wrong_treasury, AccountError::ConstraintSeeds),
    ] {
        let before = accounts;
        assert_eq!(
            initialize(&mut accounts, &program_id(), TREASURY_RENT_MIN),
            Err(InstructionError::Account(e))
        );
        assert_eq!(accounts, before);
    }
}

#[test]
fn anyone_funds_the_treasury() {
    let mut env = Env::new();
    let funder = env.new_player(3 * SOL);
    let accounts = FundTreasury { funder: signer(funder), treasury: env.treasury_account() };
    assert_eq!(
        fund_treasury(&accounts, &program_id(), 2 * SOL),
        Ok(Transfer { from: funder, to: env.treasury, lamports: 2 * SOL })
    );
    let unsigned =
        FundTreasury { funder: Signer { key: funder, signed: false }, ..accounts };
    assert_eq!(
        fund_treasury(&unsigned, &program_id(), SOL),
        Err(InstructionError::Account(AccountError::AccountNotSigner))
    );
    let elsewhere =
        FundTreasury { treasury: SystemAccount { key: new_key(), lamports: 0 }, ..accounts };
    assert_eq!(
        fund_treasury(&elsewhere, &program_id(), SOL),
        Err(InstructionError::Account(AccountError::ConstraintSeeds))
    );
}

#[test]
fn placing_records_the_bet_and_reports_it() {
    let mut env = Env::new();
    env.fund_treasury(50 * SOL);
    let player = env.new_player(10 * SOL);
    let (bet, target_slot, placed) = env.place(player, 9, SOL, Choice::Tails).unwrap();

    assert_eq!(target_slot, env.slot + COMMIT_DELAY_SLOTS);
    let (key, bump) = ChainKey::find_program_address(
        &[b"bet", &player.bytes, &9u64.to_le_bytes()],
        &chain(program_id()),
    );
    assert_eq!(bet, local(key));
    assert_eq!(
        env.bets[&bet],
        Bet { player, amount: SOL, choice: Choice::Tails, target_slot, nonce: 9, bump }
    );
    assert_eq!(
        placed,
        Placement {
            deposit: Transfer { from: player, to: env.treasury, lamports: SOL },
            event: BetPlaced { player, nonce: 9, amount: SOL, choice: Choice::Tails, target_slot },
        }
    );
    env.assert_solvent();
}

#[test]
fn placing_names_the_broken_rule() {
    let mut env = Env::new();
    env.fund_treasury(5 * SOL);
    let player = env.new_player(100 * SOL);
    assert_eq!(
        env.place_bet(player, 0, MIN_BET - 1, 0),
        Err(rule(CoinflipError::BetTooSmall))
    );
    assert_eq!(
        env.place_bet(player, 0, MAX_BET + 1, 0),
        Err(rule(CoinflipError::BetTooLarge))
    );
    assert_eq!(
        env.place_bet(player, 0, 5 * SOL + 1, 0),
        Err(rule(CoinflipError::InsufficientTreasury))
    );
    env.slot = u64::MAX - 1;
    assert_eq!(env.place_bet(player, 0, SOL, 0), Err(rule(CoinflipError::MathOverflow)));
    env.slot = u64::MAX - 2;
    assert_eq!(env.place_bet(player, 0, SOL, 0).unwrap().1, u64::MAX);
}

#[test]
fn placing_refuses_a_lock_that_overflows() {
    let mut env = Env::new();
    let player = new_key();
    let config = Config { locked_lamports: u64::MAX - 3 * SOL, ..env.config.data.unwrap() };
    env.config.data = Some(config);
    env.airdrop(env.treasury, u64::MAX - TREASURY_RENT_MIN);
    let mut accounts = env.placing(player, 0);
    let before = accounts;
    assert_eq!(
        place_bet(&mut accounts, &program_id(), 0, env.slot, 0, 2 * SOL, Choice::Heads),
        Err(InstructionError::Rule(CoinflipError::MathOverflow))
    );
    assert_eq!(accounts, before);
}

#[test]
fn placing_checks_its_accounts() {
    let mut env = Env::new();
    env.fund_treasury(50 * SOL);
    let player = env.new_player(10 * SOL);
    let good = env.placing(player, 0);
    let other = new_key();
    for (mut accounts, e) in [
        (
            PlaceBet { player: Signer { key: player, signed: false }, ..good },
            AccountError::AccountNotSigner,
        ),
        (
            PlaceBet { config: Account { key: good.config.key, data: None }, ..good },
            AccountError::AccountNotInitialized,
        ),
        (
            PlaceBet { bet: Account { key: other, data: None }, ..good },
            AccountError::ConstraintSeeds,
        ),
        (
            PlaceBet { config: Account { key: other, ..good.config }, ..good },
            AccountError::ConstraintSeeds,
        ),
        (
            PlaceBet { treasury: SystemAccount { key: other, ..good.treasury }, ..good },
            AccountError::ConstraintSeeds,
        ),
    ] {
        let before = accounts;
        assert_eq!(
            place_bet(&mut accounts, &program_id(), 0, env.slot, 0, SOL, Choice::Heads),
            Err(InstructionError::Account(e))
        );
        assert_eq!(accounts, before);
    }
    // A nonce is free again only once its bet is closed.
    env.place_bet(player, 0, SOL, 0).unwrap();
    assert_eq!(
        env.place_bet(player, 0, SOL, 0),
        Err(account(AccountError::AccountAlreadyInUse))
    );
    assert!(env.place_bet(player, 1, SOL, 0).is_ok());
}

#[test]
fn settling_reports_the_outcome() {
    for (choice, want_win) in [
        (Choice::Heads, true),
        (Choice::Heads, false),
        (Choice::Tails, true),
        (Choice::Tails, false),
    ] {
        let mut env = Env::new();
        env.fund_treasury(50 * SOL);
        let player = env.new_player(10 * SOL);
        let (bet, target_slot, _) = env.place(player, 4, SOL, choice).unwrap();
        env.rig_outcome(bet, target_slot, want_win);
        let settled = env.settle(bet, player).unwrap();
        assert_eq!(
            settled,
            Settlement {
                payout: if want_win {
                    Some(Transfer { from: env.treasury, to: player, lamports: 2 * SOL })
                } else {
                    None
                },
                close: Close { account: bet, destination: player },
                event: BetSettled {
                    player,
                    nonce: 4,
                    amount: SOL,
                    choice,
                    result: if want_win { choice } else { choice.opposite() },
                    win: want_win,
                    payout: if want_win { 2 * SOL } else { 0 },
                },
            }
        );
        env.assert_solvent();
    }
}

#[test]
fn settling_needs_the_slot_hash() {
    let mut env = Env::new();
    env.fund_treasury(50 * SOL);
    let player = env.new_player(10 * SOL);
    let (bet, target_slot) = env.place_bet(player, 0, SOL, 0).unwrap();
    env.slot = target_slot + 1;
    // The target slot was skipped: its neighbors are there, it is not.
    env.slot_hashes =
        slot_hashes_data(&[(target_slot + 1, [1; 32]), (target_slot - 1, [2; 32])]);
    assert_eq!(env.settle(bet, player), Err(rule(CoinflipError::SlotHashNotFound)));
    env.slot_hashes = slot_hashes_data(&[(target_slot + 1, [1; 32]), (target_slot, [3; 32])]);
    assert!(env.settle(bet, player).is_ok());
}

#[test]
fn settling_ends_with_the_window() {
    let mut env = Env::new();
    env.fund_treasury(50 * SOL);
    let player = env.new_player(10 * SOL);
    let (bet, target_slot) = env.place_bet(player, 0, SOL, 0).unwrap();
    env.slot_hashes = slot_hashes_data(&[(target_slot, [7; 32])]);
    // In the last slot of the window a bet can be settled and not expired.
    env.slot = target_slot + SETTLE_WINDOW_SLOTS;
    assert_eq!(env.expire(bet, player), Err(rule(CoinflipError::NotExpired)));
    assert!(env.settle(bet, player).is_ok());
}

#[test]
fn settling_checks_its_accounts() {
    let mut env = Env::new();
    env.fund_treasury(50 * SOL);
    let player = env.new_player(10 * SOL);
    let mallory = env.new_player(10 * SOL);
    let (bet, target_slot) = env.place_bet(player, 0, SOL, 0).unwrap();
    let (other_bet, _) = env.place_bet(mallory, 0, SOL, 0).unwrap();
    env.rig_outcome(bet, target_slot, true);
    let good = env.settling(bet, player);
    let other = new_key();
    for (mut accounts, e) in [
        (
            SettleBet { config: Account { key: good.config.key, data: None }, ..good },
            AccountError::AccountNotInitialized,
        ),
        (
            SettleBet { config: Account { key: other, ..good.config }, ..good },
            AccountError::ConstraintSeeds,
        ),
        (
            SettleBet { treasury: SystemAccount { key: other, ..good.treasury }, ..good },
            AccountError::ConstraintSeeds,
        ),
        // A bet put at the address of another one.
        (
            SettleBet { bet: Account { key: other_bet, ..good.bet }, ..good },
            AccountError::ConstraintSeeds,
        ),
        // A payout sent to someone else.
        (SettleBet { player: mallory, ..good }, AccountError::ConstraintHasOne),
        // Made-up slot hashes.
        (SettleBet { slot_hashes: other, ..good }, AccountError::ConstraintAddress),
    ] {
        let before = accounts;
        assert_eq!(
            settle_bet(&mut accounts, &program_id(), env.slot, &env.slot_hashes),
            Err(InstructionError::Account(e))
        );
        assert_eq!(accounts, before);
    }
}

#[test]
fn settling_and_expiring_guard_their_arithmetic() {
    let mut env = Env::new();
    env.fund_treasury(50 * SOL);
    let player = env.new_player(10 * SOL);
    let (key, target_slot) = env.place_bet(player, 0, SOL, 0).unwrap();
    let overflow = Err(rule(CoinflipError::MathOverflow));
    let overflowed = Err(rule(CoinflipError::MathOverflow));
    let bet = env.bets[&key];

    // The deadline does not exist.
    env.bets.insert(key, Bet { target_slot: u64::MAX - SETTLE_WINDOW_SLOTS + 1, ..bet });
    env.slot = u64::MAX;
    assert_eq!(env.settle(key, player), overflow);
    assert_eq!(env.expire(key, player), overflowed);

    // The payout does not fit.
    env.bets.insert(key, Bet { amount: u64::MAX / 2 + 1, ..bet });
    env.rig_outcome(key, target_slot, true);
    assert_eq!(env.settle(key, player), overflow);
    env.slot = target_slot + SETTLE_WINDOW_SLOTS + 1;
    assert_eq!(env.expire(key, player), overflowed);

    // More would be released than is locked.
    env.bets.insert(key, Bet { amount: SOL + 1, ..bet });
    env.rig_outcome(key, target_slot, true);
    assert_eq!(env.settle(key, player), overflow);
    env.slot = target_slot + SETTLE_WINDOW_SLOTS + 1;
    assert_eq!(env.expire(key, player), overflowed);
    assert_eq!(env.locked_lamports(), 2 * SOL);
}

#[test]
fn expiring_reports_the_forfeit() {
    let mut env = Env::new();
    env.fund_treasury(50 * SOL);
    let player = env.new_player(10 * SOL);
    let (bet, target_slot) = env.place_bet(player, 6, SOL, 0).unwrap();
    let player_after_bet = env.balance(player);
    env.slot = target_slot + SETTLE_WINDOW_SLOTS + 1;
    let expired = env.expire(bet, player).unwrap();
    assert_eq!(
        expired,
        Expiry {
            close: Close { account: bet, destination: player },
            event: BetExpired { player, nonce: 6, amount: SOL },
        }
    );
    // Only the rent comes back.
    assert_eq!(env.balance(player), player_after_bet + env.rent.minimum_balance(BET_SPACE));
    assert_eq!(env.expire(bet, player), Err(account(AccountError::AccountNotInitialized)));
    env.assert_solvent();
}

#[test]
fn expiring_checks_its_accounts() {
    let mut env = Env::new();
    env.fund_treasury(50 * SOL);
    let player = env.new_player(10 * SOL);
    let (key, target_slot) = env.place_bet(player, 0, SOL, 0).unwrap();
    env.slot = target_slot + SETTLE_WINDOW_SLOTS + 1;
    let other = new_key();
    assert_eq!(env.expire(key, other), Err(account(AccountError::ConstraintHasOne)));
    let good = ExpireBet {
        config: env.config,
        bet: Account { key, data: env.bets.get(&key).copied() },
        player,
    };
    for mut accounts in [
        ExpireBet { config: Account { key: other, ..good.config }, ..good },
        ExpireBet { bet: Account { key: other, ..good.bet }, ..good },
    ] {
        assert_eq!(
            expire_bet(&mut accounts, &program_id(), env.slot),
            Err(InstructionError::Account(AccountError::ConstraintSeeds))
        );
    }
}

#[test]
fn withdrawing_checks_its_accounts() {
    let mut env = Env::new();
    env.fund_treasury(10 * SOL);
    let other = new_key();
    let good = WithdrawHouse {
        admin: signer(env.admin),
        config: env.config,
        treasury: env.treasury_account(),
        destination: other,
    };
    assert_eq!(
        withdraw_house(&good, &program_id(), TREASURY_RENT_MIN, 10 * SOL),
        Ok(Transfer { from: env.treasury, to: other, lamports: 10 * SOL })
    );
    assert_eq!(
        withdraw_house(&good, &program_id(), TREASURY_RENT_MIN, 10 * SOL + 1),
        Err(InstructionError::Rule(CoinflipError::InsufficientTreasury))
    );
    for (accounts, e) in [
        (
            WithdrawHouse { admin: Signer { key: env.admin, signed: false }, ..good },
            AccountError::AccountNotSigner,
        ),
        (
            WithdrawHouse { config: Account { key: good.config.key, data: None }, ..good },
            AccountError::AccountNotInitialized,
        ),
        (
            WithdrawHouse { config: Account { key: other, ..good.config }, ..good },
            AccountError::ConstraintSeeds,
        ),
        (
            WithdrawHouse { treasury: SystemAccount { key: other, ..good.treasury }, ..good },
            AccountError::ConstraintSeeds,
        ),
    ] {
        assert_eq!(
            withdraw_house(&accounts, &program_id(), TREASURY_RENT_MIN, 1),
            Err(InstructionError::Account(e))
        );
    }
}

#[test]
fn treasury_below_its_rent_minimum_pays_nothing() {
    let mut env = Env::new();
    let player = env.new_player(10 * SOL);
    env.lamports.insert(env.treasury, TREASURY_RENT_MIN - 1);
    assert_eq!(
        env.place_bet(player, 0, SOL, 0),
        Err(rule(CoinflipError::InsufficientTreasury))
    );
    let admin = env.admin;
    assert_eq!(
        env.withdraw(admin, 0, player),
        Err(rule(CoinflipError::InsufficientTreasury))
    );
}

#[test]
fn house_stays_solvent_over_many_games() {
    let mut env = Env::new();
    env.fund_treasury(20 * SOL);
    let admin = env.admin;
    let players: Vec<Pubkey> = (0..3).map(|_| env.new_player(40 * SOL)).collect();
    let mut open: Vec<(Pubkey, Pubkey, u64)> = Vec::new();
    for round in 0..60u64 {
        let player = players[(round % 3) as usize];
        let amount = MIN_BET * (1 + (round * 7) % 40);
        if let Ok((bet, target_slot)) = env.place_bet(player, round, amount, (round % 2) as u8) {
            open.push((bet, player, target_slot));
        }
        env.assert_solvent();
        if open.len() > 3 {
            let (bet, player, target_slot) = open.remove((round % 3) as usize);
            if round % 5 == 0 {
                env.slot = target_slot + SETTLE_WINDOW_SLOTS + 1;
                env.expire(bet, player).unwrap();
            } else {
                env.rig_outcome(bet, target_slot, round % 2 == 0);
                env.settle(bet, player).unwrap();
            }
            env.assert_solvent();
        }
        let _ = env.withdraw(admin, SOL, admin);
        env.assert_solvent();
    }
    assert!(!open.is_empty());
    // Every bet that is left can be won at once.
    for (bet, player, target_slot) in open {
        env.rig_outcome(bet, target_slot, true);
        assert!(env.settle(bet, player).unwrap().event.win);
        env.assert_solvent();
    }
    assert_eq!(env.locked_lamports(), 0);
}

#[test]
fn winner_is_up_and_loser_down_by_the_bet() {
    for want_win in [true, false] {
        let mut env = Env::new();
        env.fund_treasury(50 * SOL);
        let player = env.new_player(10 * SOL);
        let (bet, target_slot) = env.place_bet(player, 0, 3 * SOL, 0).unwrap();
        env.rig_outcome(bet, target_slot, want_win);
        env.settle(bet, player).unwrap();
        let expected = if want_win { 13 * SOL } else { 7 * SOL };
        assert_eq!(env.balance(player), expected);
    }
}

#[test]
fn letting_a_winning_bet_rot_helps_only_the_house() {
    let mut env = Env::new();
    env.fund_treasury(50 * SOL);
    let player = env.new_player(10 * SOL);
    let (bet, target_slot) = env.place_bet(player, 0, 3 * SOL, 0).unwrap();
    env.rig_outcome(bet, target_slot, true);
    env.slot = target_slot + SETTLE_WINDOW_SLOTS + 1;
    assert!(env.settle(bet, player).is_err());
    env.expire(bet, player).unwrap();
    assert_eq!(env.balance(player), 7 * SOL);
    assert_eq!(env.balance(env.treasury), 53 * SOL + TREASURY_RENT_MIN);
}

#[test]
fn outcome_does_not_depend_on_when_or_on_what() {
    let mut env = Env::new();
    env.fund_treasury(50 * SOL);
    let player = env.new_player(10 * SOL);
    let (bet, target_slot) = env.place_bet(player, 0, SOL, 0).unwrap();
    for want_win in [true, false] {
        let hash = find_rigged_hash(bet, target_slot, want_win);
        let alone = slot_hashes_data(&[(target_slot, hash)]);
        let among =
            slot_hashes_data(&[(target_slot + 9, [8; 32]), (target_slot, hash), (3, [9; 32])]);
        for choice in [Choice::Heads, Choice::Tails] {
            for (slot, data) in [(target_slot + 1, &alone), (target_slot + 512, &among)] {
                let mut accounts = env.settling(bet, player);
                accounts.bet.data = Some(Bet { choice, ..env.bets[&bet] });
                accounts.treasury.lamports += slot;
                let settled = settle_bet(&mut accounts, &program_id(), slot, data).unwrap();
                assert_eq!(settled.event.win, want_win);
            }
        }
    }
}

#[test]
fn settling_one_bet_leaves_the_others() {
    let mut env = Env::new();
    env.fund_treasury(50 * SOL);
    let player = env.new_player(20 * SOL);
    let (first, target_slot) = env.place_bet(player, 0, SOL, 0).unwrap();
    let (second, _) = env.place_bet(player, 1, 2 * SOL, 1).unwrap();
    let pending = env.bets[&second];
    let before = env.config.data.unwrap();
    env.rig_outcome(first, target_slot, true);
    env.settle(first, player).unwrap();
    assert_eq!(env.bets[&second], pending);
    assert_eq!(env.config.data.unwrap(), Config { locked_lamports: 4 * SOL, ..before });
}

#[test]
fn largest_bet_is_the_largest_loss() {
    let mut env = Env::new();
    env.fund_treasury(10 * SOL);
    let player = env.new_player(11 * SOL);
    let before = env.balance(env.treasury);
    let (bet, target_slot) = env.place_bet(player, 0, MAX_BET, 0).unwrap();
    env.rig_outcome(bet, target_slot, true);
    env.settle(bet, player).unwrap();
    assert_eq!(env.balance(env.treasury), before - MAX_BET);
    assert_eq!(env.balance(env.treasury), TREASURY_RENT_MIN);
    env.assert_solvent();
}
