//! The parts that the instructions are made of.

use std::str::FromStr;

use anchor_lang::prelude::Pubkey as ChainKey;
use anchor_lang::solana_program::sysvar::slot_hashes;
use coinflip::accounts::{
    Account, ExpireBet, Initialize, PlaceBet, SettleBet, Signer, SystemAccount,
};
use coinflip::addresses::{bet_at, config_at, find_bet, find_config, find_treasury, treasury_at};
use coinflip::constants::{BET_SEED, CONFIG_SEED, SLOT_HASHES_ID, TREASURY_SEED, WIN_PERCENT};
use coinflip::error::{AccountError, CoinflipError};
use coinflip::bytes::{read_u64, u64_bytes};
use coinflip::outcome::{outcome_digest, roll};
use coinflip::program::{accept_bet, deciding_hash, open_house, settle_on};
use coinflip::pubkey::Pubkey;
use coinflip::slot_hashes::find_slot_hash;
use coinflip::state::{Bet, Choice, Config};

fn key(byte: u8) -> Pubkey {
    Pubkey { bytes: [byte; 32] }
}

fn chain(key: Pubkey) -> ChainKey {
    ChainKey::new_from_array(key.bytes)
}

fn program_id() -> Pubkey {
    let id = ChainKey::from_str("7ffE4JF4ZNCmnxQZWFxFT3ny9VDsf3LDJ1vbUNjLspX3").unwrap();
    Pubkey { bytes: id.to_bytes() }
}

fn table(entries: &[(u64, u8)]) -> Vec<u8> {
    let mut data = (entries.len() as u64).to_le_bytes().to_vec();
    for (slot, byte) in entries {
        data.extend_from_slice(&slot.to_le_bytes());
        data.extend_from_slice(&[*byte; 32]);
    }
    data
}

fn a_bet() -> Bet {
    Bet {
        player: key(4),
        amount: 1_000_000_000,
        choice: Choice::Heads,
        target_slot: 100,
        nonce: 7,
        bump: 250,
    }
}

fn a_config(locked_lamports: u64) -> Config {
    Config { admin: key(1), locked_lamports, bump: 255, treasury_bump: 254 }
}

#[test]
fn opposite_is_the_other_side() {
    assert_eq!(Choice::Heads.opposite(), Choice::Tails);
    assert_eq!(Choice::Tails.opposite(), Choice::Heads);
    assert_eq!(Choice::Heads.opposite().opposite(), Choice::Heads);
}

#[test]
fn seeds_and_sysvar_have_their_bytes() {
    assert_eq!(&CONFIG_SEED, b"config");
    assert_eq!(&TREASURY_SEED, b"treasury");
    assert_eq!(&BET_SEED, b"bet");
    assert_eq!(SLOT_HASHES_ID, slot_hashes::ID.to_bytes());
}

#[test]
fn little_endian_goes_both_ways() {
    for x in [0, 1, 255, 256, 0x0123_4567_89ab_cdef, u64::MAX - 1, u64::MAX] {
        assert_eq!(u64_bytes(x), x.to_le_bytes());
        assert_eq!(read_u64(&u64_bytes(x), 0), x);
    }
    assert_eq!(read_u64(&[9, 9, 2, 1, 0, 0, 0, 0, 0, 0, 9], 2), 258);
}

#[test]
fn keys_compare_by_every_byte() {
    let mut other = key(3);
    assert!(key(3).same_as(&other));
    other.bytes[31] = 4;
    assert!(!key(3).same_as(&other));
    other = key(3);
    other.bytes[0] = 4;
    assert!(!key(3).same_as(&other));
}

#[test]
fn every_entry_of_a_table_is_found() {
    let data = table(&[(12, 1), (10, 2), (7, 3)]);
    assert_eq!(find_slot_hash(&data, 12), Some([1; 32]));
    assert_eq!(find_slot_hash(&data, 10), Some([2; 32]));
    assert_eq!(find_slot_hash(&data, 7), Some([3; 32]));
    for absent in [0, 6, 8, 9, 11, 13, u64::MAX] {
        assert_eq!(find_slot_hash(&data, absent), None);
    }
    assert_eq!(find_slot_hash(&table(&[]), 0), None);
}

#[test]
fn lookup_stops_at_the_first_smaller_slot() {
    let data = table(&[(5, 1), (12, 2)]);
    assert_eq!(find_slot_hash(&data, 12), None);
    assert_eq!(find_slot_hash(&data, 5), Some([1; 32]));
}

#[test]
fn short_tables_hold_nothing() {
    let data = table(&[(12, 1), (10, 2)]);
    assert_eq!(find_slot_hash(&[], 12), None);
    assert_eq!(find_slot_hash(&data[..7], 12), None);
    assert_eq!(find_slot_hash(&data[..8], 12), None);
    assert_eq!(find_slot_hash(&data[..16], 12), None);
    assert_eq!(find_slot_hash(&data[..47], 12), None);
    assert_eq!(find_slot_hash(&data[..48], 12), Some([1; 32]));
    assert_eq!(find_slot_hash(&data[..87], 10), None);
    assert_eq!(find_slot_hash(&data[..88], 10), Some([2; 32]));
    // The count limits the scan, whatever stands behind it.
    let mut fewer = data.clone();
    fewer[0] = 1;
    assert_eq!(find_slot_hash(&fewer, 10), None);
    // A count that the data does not bear out does no harm.
    let mut more = data.clone();
    more[..8].copy_from_slice(&u64::MAX.to_le_bytes());
    assert_eq!(find_slot_hash(&more, 10), Some([2; 32]));
    assert_eq!(find_slot_hash(&more, 9), None);
}

#[test]
fn digest_is_sha256_of_hash_address_and_slot() {
    let mut slot_hash = [0u8; 32];
    for i in 0..32 {
        slot_hash[i] = i as u8;
    }
    let digest = outcome_digest(&slot_hash, &key(7), 42);
    assert_eq!(
        digest,
        [
            35, 71, 37, 68, 123, 13, 138, 235, 116, 68, 8, 233, 87, 210, 50, 226, 12, 11, 129, 149,
            230, 192, 21, 200, 49, 64, 250, 246, 16, 94, 79, 126
        ]
    );
    assert_eq!(roll(&digest), 15);
    assert_ne!(outcome_digest(&slot_hash, &key(7), 43), digest);
    assert_ne!(outcome_digest(&slot_hash, &key(8), 42), digest);
    assert_ne!(outcome_digest(&[0; 32], &key(7), 42), digest);
}

#[test]
fn forty_nine_of_a_hundred_rolls_win() {
    for start in [0u64, 1, 51, 12_345_678_901, u64::MAX - 99] {
        let mut wins = 0;
        for i in 0..100 {
            let mut digest = [0xffu8; 32];
            digest[..8].copy_from_slice(&(start + i).to_le_bytes());
            assert_eq!(roll(&digest), (start + i) % 100);
            if roll(&digest) < WIN_PERCENT {
                wins += 1;
            }
        }
        assert_eq!(wins, 49);
    }
}

#[test]
fn addresses_are_the_derived_ones() {
    let id = program_id();
    let player = key(9);
    let nonce = 0x0102_0304_0506_0708u64;
    let found = ChainKey::find_program_address(&[b"config"], &chain(id));
    let (config, bump) = find_config(&id).unwrap();
    assert_eq!((chain(config), bump), found);
    assert_eq!(config_at(bump, &id), Some(config));

    let found = ChainKey::find_program_address(&[b"treasury"], &chain(id));
    let (treasury, bump) = find_treasury(&id).unwrap();
    assert_eq!((chain(treasury), bump), found);
    assert_eq!(treasury_at(bump, &id), Some(treasury));
    assert_ne!(treasury, config);

    let seeds: [&[u8]; 3] = [b"bet", &player.bytes, &nonce.to_le_bytes()];
    let found = ChainKey::find_program_address(&seeds, &chain(id));
    let (bet, bump) = find_bet(&player, nonce, &id).unwrap();
    assert_eq!((chain(bet), bump), found);
    assert_eq!(bet_at(&player, nonce, bump, &id), Some(bet));
    assert_ne!(find_bet(&player, nonce + 1, &id).unwrap().0, bet);
    assert_ne!(find_bet(&key(8), nonce, &id).unwrap().0, bet);
}

#[test]
fn bumps_above_the_canonical_one_derive_nothing() {
    let id = program_id();
    let mut skipped = 0;
    for nonce in 0..16 {
        let (address, bump) = find_bet(&key(9), nonce, &id).unwrap();
        assert_eq!(bet_at(&key(9), nonce, bump, &id), Some(address));
        for higher in bump as u16 + 1..=255 {
            assert_eq!(bet_at(&key(9), nonce, higher as u8, &id), None);
            skipped += 1;
        }
    }
    assert!(skipped > 0);
}

#[test]
fn account_checks_go_by_the_given_addresses() {
    let initialize = Initialize {
        admin: Signer { key: key(1), signed: true },
        config: Account { key: key(2), data: None },
        treasury: SystemAccount { key: key(3), lamports: 0 },
    };
    let (config, treasury) = (Some((key(2), 255)), Some((key(3), 255)));
    assert_eq!(initialize.check(&config, &treasury), Ok(()));
    assert_eq!(initialize.check(&None, &treasury), Err(AccountError::ConstraintSeeds));
    assert_eq!(initialize.check(&config, &None), Err(AccountError::ConstraintSeeds));

    let settle = SettleBet {
        config: Account { key: key(2), data: Some(a_config(0)) },
        treasury: SystemAccount { key: key(3), lamports: 0 },
        bet: Account { key: key(5), data: Some(a_bet()) },
        player: key(4),
        slot_hashes: Pubkey { bytes: SLOT_HASHES_ID },
    };
    let (config, treasury, bet) = (Some(key(2)), Some(key(3)), Some(key(5)));
    assert_eq!(settle.check(&config, &treasury, &bet), Ok(()));
    assert_eq!(settle.check(&None, &treasury, &bet), Err(AccountError::ConstraintSeeds));
    assert_eq!(settle.check(&config, &None, &bet), Err(AccountError::ConstraintSeeds));
    assert_eq!(settle.check(&config, &treasury, &None), Err(AccountError::ConstraintSeeds));
    assert_eq!(settle.check(&config, &treasury, &config), Err(AccountError::ConstraintSeeds));

    // A bet account cannot be closed into itself.
    let expire = ExpireBet {
        config: Account { key: key(2), data: Some(a_config(0)) },
        bet: Account { key: key(4), data: Some(a_bet()) },
        player: key(4),
    };
    assert_eq!(
        expire.check(&Some(key(2)), &Some(key(4))),
        Err(AccountError::ConstraintClose)
    );
}

#[test]
fn opening_writes_the_bumps_it_is_given() {
    let mut accounts = Initialize {
        admin: Signer { key: key(1), signed: true },
        config: Account { key: key(2), data: None },
        treasury: SystemAccount { key: key(3), lamports: 30 },
    };
    let top_up = open_house(&mut accounts, 251, 252, 100).unwrap();
    assert_eq!((top_up.from, top_up.to, top_up.lamports), (key(1), key(3), 70));
    assert_eq!(
        accounts.config.data,
        Some(Config { admin: key(1), locked_lamports: 0, bump: 251, treasury_bump: 252 })
    );
    assert_eq!(open_house(&mut accounts, 251, 252, 30), None);
}

#[test]
fn deciding_hash_names_what_is_wrong() {
    let data = table(&[(101, 1), (100, 2), (99, 3)]);
    let bet = a_bet();
    assert_eq!(deciding_hash(&bet, 100, &data), Err(CoinflipError::TooEarly));
    assert_eq!(deciding_hash(&bet, 101, &data), Ok([2; 32]));
    assert_eq!(deciding_hash(&bet, 612, &data), Ok([2; 32]));
    assert_eq!(deciding_hash(&bet, 613, &data), Err(CoinflipError::SettleWindowPassed));
    assert_eq!(deciding_hash(&bet, 101, &[]), Err(CoinflipError::SlotHashNotFound));
    let late = Bet { target_slot: u64::MAX - 511, ..bet };
    assert_eq!(deciding_hash(&late, u64::MAX, &data), Err(CoinflipError::MathOverflow));
}

#[test]
fn settling_goes_by_the_digest_it_is_given() {
    let accounts = SettleBet {
        config: Account { key: key(2), data: Some(a_config(5_000_000_000)) },
        treasury: SystemAccount { key: key(3), lamports: 9_000_000_000 },
        bet: Account { key: key(5), data: Some(a_bet()) },
        player: key(4),
        slot_hashes: Pubkey { bytes: SLOT_HASHES_ID },
    };
    for (first, win) in [(0u8, true), (48, true), (49, false), (99, false), (100, true)] {
        let mut digest = [0u8; 32];
        digest[0] = first;
        let mut after = accounts;
        let settled = settle_on(&mut after, &digest).unwrap();
        assert_eq!(settled.event.win, win);
        assert_eq!(settled.payout.is_some(), win);
        assert_eq!(after.config.data.unwrap().locked_lamports, 3_000_000_000);
        assert_eq!(after.bet.data, None);
    }
}

#[test]
fn accepting_records_the_bump_it_is_given() {
    let mut accounts = PlaceBet {
        player: Signer { key: key(4), signed: true },
        config: Account { key: key(2), data: Some(a_config(500)) },
        treasury: SystemAccount { key: key(3), lamports: 1_000_000_600 },
        bet: Account { key: key(5), data: None },
    };
    let before = accounts;
    // 100 lamports of rent minimum and 500 locked leave exactly one SOL.
    assert_eq!(
        accept_bet(&mut accounts, 250, 100, 98, 7, 1_000_000_001, Choice::Heads),
        Err(CoinflipError::InsufficientTreasury)
    );
    assert_eq!(accounts, before);
    let placed = accept_bet(&mut accounts, 250, 100, 98, 7, 1_000_000_000, Choice::Heads).unwrap();
    assert_eq!(placed.event.target_slot, 100);
    assert_eq!(accounts.bet.data, Some(a_bet()));
    assert_eq!(accounts.config.data, Some(a_config(2_000_000_500)));
}
