//! The accounts that each instruction is given, and the checks that they
//! have to pass before the instruction runs.
//!
//! Whoever reads an account from the chain has already seen to it that it is
//! writable where it has to be, and that data is there only if the account is
//! the program's own and of the right type.

use anchor_lang::prelude::Pubkey as ChainKey;
use anchor_lang::solana_program::sysvar::slot_hashes;
use vstd::prelude::*;

use crate::addresses::{
    bet_at, bet_seeds, canonical, config_at, config_seeds, derived, find_bet, find_config,
    find_treasury, found_bytes, key_bytes, treasury_at, treasury_seeds,
};
use crate::constants::SLOT_HASHES_ID;
use crate::error::AccountError;
use crate::pubkey::Pubkey;
use crate::state::{Bet, Config};

verus! {

/// An account that has to sign.
#[derive(Clone, Copy, PartialEq, Eq, Debug)]
pub struct Signer {
    pub key: Pubkey,
    pub signed: bool,
}

/// An account that only holds lamports.
#[derive(Clone, Copy, PartialEq, Eq, Debug)]
pub struct SystemAccount {
    pub key: Pubkey,
    pub lamports: u64,
}

/// An account of the program: no data before it is created and after it is
/// closed.
#[derive(Clone, Copy, PartialEq, Eq, Debug)]
pub struct Account<T> {
    pub key: Pubkey,
    pub data: Option<T>,
}

/// Whether `key` is the address that was derived.
pub open spec fn is_at(key: Pubkey, address: Option<Seq<u8>>) -> bool {
    address == Some(key@)
}

/// Whether `key` is the address that was found. Where none was found, no key is.
pub open spec fn is_found(key: Pubkey, found: Option<(Seq<u8>, u8)>) -> bool {
    found matches Some((address, _)) && address == key@
}

fn stands_at(key: &Pubkey, address: &Option<Pubkey>) -> (yes: bool)
    ensures
        yes == is_at(*key, key_bytes(*address)),
{
    match address {
        Some(k) => k.same_as(key),
        None => false,
    }
}

fn stands_at_found(key: &Pubkey, found: &Option<(Pubkey, u8)>) -> (yes: bool)
    ensures
        yes == is_found(*key, found_bytes(*found)),
{
    match found {
        Some((k, _)) => k.same_as(key),
        None => false,
    }
}

/// Calls `solana_program::sysvar::slot_hashes::check_id`. Claims that it
/// compares the address with the fixed address of the SlotHashes sysvar.
#[verifier::external_body]
fn is_slot_hashes_id(key: &Pubkey) -> (yes: bool)
    ensures
        yes == (key@ == SLOT_HASHES_ID@),
{
    slot_hashes::check_id(&ChainKey::new_from_array(key.bytes))
}

/// The outcome of checks that ended with the given fault.
pub open spec fn as_result(fault: Option<AccountError>) -> Result<(), AccountError> {
    match fault {
        Some(e) => Err(e),
        None => Ok(()),
    }
}

/// The accounts of `initialize`.
#[derive(Clone, Copy, PartialEq, Eq, Debug)]
pub struct Initialize {
    pub admin: Signer,
    pub config: Account<Config>,
    pub treasury: SystemAccount,
}

impl Initialize {
    /// What is wrong with the accounts, given the addresses found for the
    /// config and the treasury.
    pub open spec fn fault(
        self,
        config: Option<(Seq<u8>, u8)>,
        treasury: Option<(Seq<u8>, u8)>,
    ) -> Option<AccountError> {
        if !self.admin.signed {
            Some(AccountError::AccountNotSigner)
        } else if !is_found(self.config.key, config) {
            Some(AccountError::ConstraintSeeds)
        } else if self.config.data is Some {
            Some(AccountError::AccountAlreadyInUse)
        } else if !is_found(self.treasury.key, treasury) {
            Some(AccountError::ConstraintSeeds)
        } else {
            None
        }
    }

    /// What is wrong with the accounts.
    pub open spec fn fault_in(self, program_id: Seq<u8>) -> Option<AccountError> {
        self.fault(canonical(config_seeds(), program_id), canonical(treasury_seeds(), program_id))
    }

    /// Checks the accounts against the addresses found for them.
    pub fn check(
        &self,
        config: &Option<(Pubkey, u8)>,
        treasury: &Option<(Pubkey, u8)>,
    ) -> (checked: Result<(), AccountError>)
        ensures
            checked == as_result(self.fault(found_bytes(*config), found_bytes(*treasury))),
    {
        if !self.admin.signed {
            return Err(AccountError::AccountNotSigner);
        }
        if !stands_at_found(&self.config.key, config) {
            return Err(AccountError::ConstraintSeeds);
        }
        if self.config.data.is_some() {
            return Err(AccountError::AccountAlreadyInUse);
        }
        if !stands_at_found(&self.treasury.key, treasury) {
            return Err(AccountError::ConstraintSeeds);
        }
        Ok(())
    }

    /// Checks the accounts; gives the bumps of the config and the treasury.
    pub fn validate(&self, program_id: &Pubkey) -> (bumps: Result<(u8, u8), AccountError>)
        ensures
            match self.fault_in(program_id@) {
                Some(e) => bumps == Err::<(u8, u8), AccountError>(e),
                None => bumps == Ok::<(u8, u8), AccountError>(
                    (
                        canonical(config_seeds(), program_id@).unwrap().1,
                        canonical(treasury_seeds(), program_id@).unwrap().1,
                    ),
                ),
            },
    {
        let config = find_config(program_id);
        let treasury = find_treasury(program_id);
        match self.check(&config, &treasury) {
            Err(e) => Err(e),
            Ok(()) => Ok((config.unwrap().1, treasury.unwrap().1)),
        }
    }
}

/// The accounts of `fund_treasury`.
#[derive(Clone, Copy, PartialEq, Eq, Debug)]
pub struct FundTreasury {
    pub funder: Signer,
    pub treasury: SystemAccount,
}

impl FundTreasury {
    /// What is wrong with the accounts, given the address found for the
    /// treasury.
    pub open spec fn fault(self, treasury: Option<(Seq<u8>, u8)>) -> Option<AccountError> {
        if !self.funder.signed {
            Some(AccountError::AccountNotSigner)
        } else if !is_found(self.treasury.key, treasury) {
            Some(AccountError::ConstraintSeeds)
        } else {
            None
        }
    }

    /// What is wrong with the accounts.
    pub open spec fn fault_in(self, program_id: Seq<u8>) -> Option<AccountError> {
        self.fault(canonical(treasury_seeds(), program_id))
    }

    /// Checks the accounts against the address found for the treasury.
    pub fn check(&self, treasury: &Option<(Pubkey, u8)>) -> (checked: Result<(), AccountError>)
        ensures
            checked == as_result(self.fault(found_bytes(*treasury))),
    {
        if !self.funder.signed {
            return Err(AccountError::AccountNotSigner);
        }
        if !stands_at_found(&self.treasury.key, treasury) {
            return Err(AccountError::ConstraintSeeds);
        }
        Ok(())
    }

    /// Checks the accounts.
    pub fn validate(&self, program_id: &Pubkey) -> (checked: Result<(), AccountError>)
        ensures
            checked == as_result(self.fault_in(program_id@)),
    {
        self.check(&find_treasury(program_id))
    }
}

/// The accounts of `place_bet`.
#[derive(Clone, Copy, PartialEq, Eq, Debug)]
pub struct PlaceBet {
    pub player: Signer,
    pub config: Account<Config>,
    pub treasury: SystemAccount,
    pub bet: Account<Bet>,
}

impl PlaceBet {
    /// What is wrong with the accounts, given the address found for the bet
    /// and those derived for the config and the treasury.
    pub open spec fn fault(
        self,
        bet: Option<(Seq<u8>, u8)>,
        config: Option<Seq<u8>>,
        treasury: Option<Seq<u8>>,
    ) -> Option<AccountError> {
        if !self.player.signed {
            Some(AccountError::AccountNotSigner)
        } else if self.config.data is None {
            Some(AccountError::AccountNotInitialized)
        } else if !is_found(self.bet.key, bet) {
            Some(AccountError::ConstraintSeeds)
        } else if self.bet.data is Some {
            Some(AccountError::AccountAlreadyInUse)
        } else if !is_at(self.config.key, config) || !is_at(self.treasury.key, treasury) {
            Some(AccountError::ConstraintSeeds)
        } else {
            None
        }
    }

    /// What is wrong with the accounts for a bet with this nonce.
    pub open spec fn fault_in(self, program_id: Seq<u8>, nonce: u64) -> Option<AccountError> {
        self.fault(
            canonical(bet_seeds(self.player.key@, nonce), program_id),
            derived_config(self.config, program_id),
            derived_treasury(self.config, program_id),
        )
    }

    /// Checks the accounts against the addresses found and derived for them.
    pub fn check(
        &self,
        bet: &Option<(Pubkey, u8)>,
        config: &Option<Pubkey>,
        treasury: &Option<Pubkey>,
    ) -> (checked: Result<(), AccountError>)
        ensures
            checked == as_result(
                self.fault(found_bytes(*bet), key_bytes(*config), key_bytes(*treasury)),
            ),
    {
        if !self.player.signed {
            return Err(AccountError::AccountNotSigner);
        }
        if self.config.data.is_none() {
            return Err(AccountError::AccountNotInitialized);
        }
        if !stands_at_found(&self.bet.key, bet) {
            return Err(AccountError::ConstraintSeeds);
        }
        if self.bet.data.is_some() {
            return Err(AccountError::AccountAlreadyInUse);
        }
        if !stands_at(&self.config.key, config) {
            return Err(AccountError::ConstraintSeeds);
        }
        if !stands_at(&self.treasury.key, treasury) {
            return Err(AccountError::ConstraintSeeds);
        }
        Ok(())
    }

    /// Checks the accounts for a bet with this nonce; gives the bet's bump.
    pub fn validate(&self, program_id: &Pubkey, nonce: u64) -> (bump: Result<u8, AccountError>)
        ensures
            match self.fault_in(program_id@, nonce) {
                Some(e) => bump == Err::<u8, AccountError>(e),
                None => bump == Ok::<u8, AccountError>(
                    canonical(bet_seeds(self.player.key@, nonce), program_id@).unwrap().1,
                ),
            },
    {
        let bet = find_bet(&self.player.key, nonce, program_id);
        let config = derive_config(&self.config, program_id);
        let treasury = derive_treasury(&self.config, program_id);
        match self.check(&bet, &config, &treasury) {
            Err(e) => Err(e),
            Ok(()) => Ok(bet.unwrap().1),
        }
    }
}

/// The config's address at the bump that the config records.
pub open spec fn derived_config(config: Account<Config>, program_id: Seq<u8>) -> Option<Seq<u8>> {
    match config.data {
        Some(c) => derived(config_seeds().push(seq![c.bump]), program_id),
        None => None,
    }
}

/// The treasury's address at the bump that the config records.
pub open spec fn derived_treasury(config: Account<Config>, program_id: Seq<u8>) -> Option<
    Seq<u8>,
> {
    match config.data {
        Some(c) => derived(treasury_seeds().push(seq![c.treasury_bump]), program_id),
        None => None,
    }
}

/// The bet's address at the player, nonce and bump that the bet records.
pub open spec fn derived_bet(bet: Account<Bet>, program_id: Seq<u8>) -> Option<Seq<u8>> {
    match bet.data {
        Some(b) => derived(bet_seeds(b.player@, b.nonce).push(seq![b.bump]), program_id),
        None => None,
    }
}

fn derive_config(config: &Account<Config>, program_id: &Pubkey) -> (key: Option<Pubkey>)
    ensures
        key_bytes(key) == derived_config(*config, program_id@),
{
    match &config.data {
        Some(c) => config_at(c.bump, program_id),
        None => None,
    }
}

fn derive_treasury(config: &Account<Config>, program_id: &Pubkey) -> (key: Option<Pubkey>)
    ensures
        key_bytes(key) == derived_treasury(*config, program_id@),
{
    match &config.data {
        Some(c) => treasury_at(c.treasury_bump, program_id),
        None => None,
    }
}

fn derive_bet(bet: &Account<Bet>, program_id: &Pubkey) -> (key: Option<Pubkey>)
    ensures
        key_bytes(key) == derived_bet(*bet, program_id@),
{
    match &bet.data {
        Some(b) => bet_at(&b.player, b.nonce, b.bump, program_id),
        None => None,
    }
}

/// What is wrong with a bet account and the player given beside it: it has
/// to stand at its derived address, belong to that player and be another
/// account than the player's.
pub open spec fn bet_fault(bet: Account<Bet>, player: Pubkey, address: Option<Seq<u8>>) -> Option<
    AccountError,
> {
    if !is_at(bet.key, address) {
        Some(AccountError::ConstraintSeeds)
    } else if bet.data.unwrap().player != player {
        Some(AccountError::ConstraintHasOne)
    } else if bet.key == player {
        Some(AccountError::ConstraintClose)
    } else {
        None
    }
}

fn check_bet(bet: &Account<Bet>, player: &Pubkey, address: &Option<Pubkey>) -> (checked: Result<
    (),
    AccountError,
>)
    requires
        bet.data is Some,
    ensures
        checked == as_result(bet_fault(*bet, *player, key_bytes(*address))),
{
    if !stands_at(&bet.key, address) {
        return Err(AccountError::ConstraintSeeds);
    }
    let recorded: Bet = bet.data.unwrap();
    if !recorded.player.same_as(player) {
        return Err(AccountError::ConstraintHasOne);
    }
    if bet.key.same_as(player) {
        return Err(AccountError::ConstraintClose);
    }
    Ok(())
}

/// The accounts of `settle_bet`.
#[derive(Clone, Copy, PartialEq, Eq, Debug)]
pub struct SettleBet {
    pub config: Account<Config>,
    pub treasury: SystemAccount,
    pub bet: Account<Bet>,
    /// Must be the bet's player; receives payout and rent.
    pub player: Pubkey,
    /// Must be the SlotHashes sysvar.
    pub slot_hashes: Pubkey,
}

impl SettleBet {
    /// What is wrong with the accounts, given the addresses derived for the
    /// config, the treasury and the bet.
    pub open spec fn fault(
        self,
        config: Option<Seq<u8>>,
        treasury: Option<Seq<u8>>,
        bet: Option<Seq<u8>>,
    ) -> Option<AccountError> {
        if self.config.data is None || self.bet.data is None {
            Some(AccountError::AccountNotInitialized)
        } else if !is_at(self.config.key, config) || !is_at(self.treasury.key, treasury) {
            Some(AccountError::ConstraintSeeds)
        } else if bet_fault(self.bet, self.player, bet) is Some {
            bet_fault(self.bet, self.player, bet)
        } else if self.slot_hashes@ != SLOT_HASHES_ID@ {
            Some(AccountError::ConstraintAddress)
        } else {
            None
        }
    }

    /// What is wrong with the accounts.
    pub open spec fn fault_in(self, program_id: Seq<u8>) -> Option<AccountError> {
        self.fault(
            derived_config(self.config, program_id),
            derived_treasury(self.config, program_id),
            derived_bet(self.bet, program_id),
        )
    }

    /// Checks the accounts against the addresses derived for them.
    pub fn check(
        &self,
        config: &Option<Pubkey>,
        treasury: &Option<Pubkey>,
        bet: &Option<Pubkey>,
    ) -> (checked: Result<(), AccountError>)
        ensures
            checked == as_result(
                self.fault(key_bytes(*config), key_bytes(*treasury), key_bytes(*bet)),
            ),
    {
        if self.config.data.is_none() || self.bet.data.is_none() {
            return Err(AccountError::AccountNotInitialized);
        }
        if !stands_at(&self.config.key, config) || !stands_at(&self.treasury.key, treasury) {
            return Err(AccountError::ConstraintSeeds);
        }
        match check_bet(&self.bet, &self.player, bet) {
            Err(e) => {
                return Err(e);
            },
            Ok(()) => {},
        }
        if !is_slot_hashes_id(&self.slot_hashes) {
            return Err(AccountError::ConstraintAddress);
        }
        Ok(())
    }

    /// Checks the accounts.
    pub fn validate(&self, program_id: &Pubkey) -> (checked: Result<(), AccountError>)
        ensures
            checked == as_result(self.fault_in(program_id@)),
    {
        self.check(
            &derive_config(&self.config, program_id),
            &derive_treasury(&self.config, program_id),
            &derive_bet(&self.bet, program_id),
        )
    }
}

/// The accounts of `expire_bet`.
#[derive(Clone, Copy, PartialEq, Eq, Debug)]
pub struct ExpireBet {
    pub config: Account<Config>,
    pub bet: Account<Bet>,
    /// Must be the bet's player; receives the rent refund.
    pub player: Pubkey,
}

impl ExpireBet {
    /// What is wrong with the accounts, given the addresses derived for the
    /// config and the bet.
    pub open spec fn fault(self, config: Option<Seq<u8>>, bet: Option<Seq<u8>>) -> Option<
        AccountError,
    > {
        if self.config.data is None || self.bet.data is None {
            Some(AccountError::AccountNotInitialized)
        } else if !is_at(self.config.key, config) {
            Some(AccountError::ConstraintSeeds)
        } else {
            bet_fault(self.bet, self.player, bet)
        }
    }

    /// What is wrong with the accounts.
    pub open spec fn fault_in(self, program_id: Seq<u8>) -> Option<AccountError> {
        self.fault(derived_config(self.config, program_id), derived_bet(self.bet, program_id))
    }

    /// Checks the accounts against the addresses derived for them.
    pub fn check(&self, config: &Option<Pubkey>, bet: &Option<Pubkey>) -> (checked: Result<
        (),
        AccountError,
    >)
        ensures
            checked == as_result(self.fault(key_bytes(*config), key_bytes(*bet))),
    {
        if self.config.data.is_none() || self.bet.data.is_none() {
            return Err(AccountError::AccountNotInitialized);
        }
        if !stands_at(&self.config.key, config) {
            return Err(AccountError::ConstraintSeeds);
        }
        check_bet(&self.bet, &self.player, bet)
    }

    /// Checks the accounts.
    pub fn validate(&self, program_id: &Pubkey) -> (checked: Result<(), AccountError>)
        ensures
            checked == as_result(self.fault_in(program_id@)),
    {
        self.check(
            &derive_config(&self.config, program_id),
            &derive_bet(&self.bet, program_id),
        )
    }
}

/// The accounts of `withdraw_house`.
#[derive(Clone, Copy, PartialEq, Eq, Debug)]
pub struct WithdrawHouse {
    pub admin: Signer,
    pub config: Account<Config>,
    pub treasury: SystemAccount,
    /// Any destination the admin chooses.
    pub destination: Pubkey,
}

impl WithdrawHouse {
    /// What is wrong with the accounts, given the addresses derived for the
    /// config and the treasury.
    pub open spec fn fault(self, config: Option<Seq<u8>>, treasury: Option<Seq<u8>>) -> Option<
        AccountError,
    > {
        if !self.admin.signed {
            Some(AccountError::AccountNotSigner)
        } else if self.config.data is None {
            Some(AccountError::AccountNotInitialized)
        } else if !is_at(self.config.key, config) {
            Some(AccountError::ConstraintSeeds)
        } else if self.config.data.unwrap().admin != self.admin.key {
            Some(AccountError::ConstraintHasOne)
        } else if !is_at(self.treasury.key, treasury) {
            Some(AccountError::ConstraintSeeds)
        } else {
            None
        }
    }

    /// What is wrong with the accounts.
    pub open spec fn fault_in(self, program_id: Seq<u8>) -> Option<AccountError> {
        self.fault(
            derived_config(self.config, program_id),
            derived_treasury(self.config, program_id),
        )
    }

    /// Checks the accounts against the addresses derived for them.
    pub fn check(&self, config: &Option<Pubkey>, treasury: &Option<Pubkey>) -> (checked: Result<
        (),
        AccountError,
    >)
        ensures
            checked == as_result(self.fault(key_bytes(*config), key_bytes(*treasury))),
    {
        if !self.admin.signed {
            return Err(AccountError::AccountNotSigner);
        }
        if self.config.data.is_none() {
            return Err(AccountError::AccountNotInitialized);
        }
        if !stands_at(&self.config.key, config) {
            return Err(AccountError::ConstraintSeeds);
        }
        let recorded: Config = self.config.data.unwrap();
        if !recorded.admin.same_as(&self.admin.key) {
            return Err(AccountError::ConstraintHasOne);
        }
        if !stands_at(&self.treasury.key, treasury) {
            return Err(AccountError::ConstraintSeeds);
        }
        Ok(())
    }

    /// Checks the accounts.
    pub fn validate(&self, program_id: &Pubkey) -> (checked: Result<(), AccountError>)
        ensures
            checked == as_result(self.fault_in(program_id@)),
    {
        self.check(
            &derive_config(&self.config, program_id),
            &derive_treasury(&self.config, program_id),
        )
    }
}

} // verus!
