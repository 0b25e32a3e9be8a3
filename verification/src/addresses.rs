//! The addresses that the program derives for its accounts.

use anchor_lang::prelude::Pubkey as ChainKey;
use vstd::prelude::*;

use crate::bytes::{contents, le_bytes, le_round_trip, u64_bytes};
use crate::constants::{BET_SEED, CONFIG_SEED, TREASURY_SEED};
use crate::pubkey::Pubkey;

verus! {

/// The address that a program derives from seeds, if they derive one.
pub uninterp spec fn derived(seeds: Seq<Seq<u8>>, program_id: Seq<u8>) -> Option<Seq<u8>>;

/// The bytes of an address that may be missing.
pub open spec fn key_bytes(key: Option<Pubkey>) -> Option<Seq<u8>> {
    match key {
        Some(k) => Some(k@),
        None => None,
    }
}

/// Calls `Pubkey::create_program_address`. Claims that the address, or that
/// there is none, depends on the seeds' contents and the program's address
/// alone, and names it.
#[verifier::external_body]
fn create_address(seeds: &[&[u8]], program_id: &Pubkey) -> (key: Option<Pubkey>)
    ensures
        key_bytes(key) == derived(contents(seeds@), program_id@),
{
    match ChainKey::create_program_address(seeds, &ChainKey::new_from_array(program_id.bytes)) {
        Ok(key) => Some(Pubkey { bytes: key.to_bytes() }),
        Err(_) => None,
    }
}

/// `bump` is the highest one from 255 down to 1 that, put behind the seeds,
/// derives an address.
pub open spec fn is_canonical_bump(seeds: Seq<Seq<u8>>, program_id: Seq<u8>, bump: u8) -> bool {
    &&& 1 <= bump
    &&& derived(seeds.push(seq![bump]), program_id) is Some
    &&& forall|higher: u8|
        bump < higher ==> #[trigger] derived(seeds.push(seq![higher]), program_id) is None
}

/// The address at the canonical bump together with that bump, if there is one.
pub open spec fn canonical(seeds: Seq<Seq<u8>>, program_id: Seq<u8>) -> Option<(Seq<u8>, u8)> {
    if exists|bump: u8| is_canonical_bump(seeds, program_id, bump) {
        let bump = choose|bump: u8| is_canonical_bump(seeds, program_id, bump);
        Some((derived(seeds.push(seq![bump]), program_id).unwrap(), bump))
    } else {
        None
    }
}

/// Calls `Pubkey::try_find_program_address`. Claims that it tries the bumps
/// from 255 down to 1 and returns the first one that derives an address,
/// with that address, or nothing if none does.
#[verifier::external_body]
fn find_address(seeds: &[&[u8]], program_id: &Pubkey) -> (found: Option<(Pubkey, u8)>)
    ensures
        match found {
            Some((key, bump)) => {
                &&& is_canonical_bump(contents(seeds@), program_id@, bump)
                &&& derived(contents(seeds@).push(seq![bump]), program_id@) == Some(key@)
            },
            None => forall|bump: u8|
                1 <= bump ==> #[trigger] derived(contents(seeds@).push(seq![bump]), program_id@) is None,
        },
{
    match ChainKey::try_find_program_address(seeds, &ChainKey::new_from_array(program_id.bytes)) {
        Some((key, bump)) => Some((Pubkey { bytes: key.to_bytes() }, bump)),
        None => None,
    }
}

/// The bytes of an address and its bump, which may be missing.
pub open spec fn found_bytes(found: Option<(Pubkey, u8)>) -> Option<(Seq<u8>, u8)> {
    match found {
        Some((key, bump)) => Some((key@, bump)),
        None => None,
    }
}

/// There is at most one canonical bump.
proof fn canonical_bump_is_unique(seeds: Seq<Seq<u8>>, program_id: Seq<u8>, bump: u8)
    requires
        is_canonical_bump(seeds, program_id, bump),
    ensures
        canonical(seeds, program_id) == Some(
            (derived(seeds.push(seq![bump]), program_id).unwrap(), bump),
        ),
{
    let c = choose|b: u8| is_canonical_bump(seeds, program_id, b);
    assert(is_canonical_bump(seeds, program_id, c));
    if c < bump {
        assert(derived(seeds.push(seq![bump]), program_id) is None);
    }
    if bump < c {
        assert(derived(seeds.push(seq![c]), program_id) is None);
    }
}

/// Finds the canonical address of the given seeds.
fn find_canonical(seeds: &[&[u8]], program_id: &Pubkey) -> (found: Option<(Pubkey, u8)>)
    ensures
        found_bytes(found) == canonical(contents(seeds@), program_id@),
{
    let found = find_address(seeds, program_id);
    proof {
        if let Some((_, bump)) = found {
            canonical_bump_is_unique(contents(seeds@), program_id@, bump);
        } else {
            assert forall|bump: u8| !is_canonical_bump(contents(seeds@), program_id@, bump) by {
                assert(1 <= bump ==> derived(
                    contents(seeds@).push(seq![bump]),
                    program_id@,
                ) is None);
            }
        }
    }
    found
}

/// The seeds of the config account.
pub open spec fn config_seeds() -> Seq<Seq<u8>> {
    seq![CONFIG_SEED@]
}

/// The seeds of the treasury.
pub open spec fn treasury_seeds() -> Seq<Seq<u8>> {
    seq![TREASURY_SEED@]
}

/// The seeds of a player's bet with a given nonce.
pub open spec fn bet_seeds(player: Seq<u8>, nonce: u64) -> Seq<Seq<u8>> {
    seq![BET_SEED@, player, le_bytes(nonce)]
}

/// The config account's address and bump.
pub fn find_config(program_id: &Pubkey) -> (found: Option<(Pubkey, u8)>)
    ensures
        found_bytes(found) == canonical(config_seeds(), program_id@),
{
    let seed: [u8; 6] = CONFIG_SEED;
    let seeds: [&[u8]; 1] = [seed.as_slice()];
    assert(contents(seeds@) =~= config_seeds());
    find_canonical(&seeds, program_id)
}

/// The treasury's address and bump.
pub fn find_treasury(program_id: &Pubkey) -> (found: Option<(Pubkey, u8)>)
    ensures
        found_bytes(found) == canonical(treasury_seeds(), program_id@),
{
    let seed: [u8; 8] = TREASURY_SEED;
    let seeds: [&[u8]; 1] = [seed.as_slice()];
    assert(contents(seeds@) =~= treasury_seeds());
    find_canonical(&seeds, program_id)
}

/// The address and bump of a player's bet with a given nonce.
pub fn find_bet(player: &Pubkey, nonce: u64, program_id: &Pubkey) -> (found: Option<(Pubkey, u8)>)
    ensures
        found_bytes(found) == canonical(bet_seeds(player@, nonce), program_id@),
{
    let seed: [u8; 3] = BET_SEED;
    let nonce_bytes: [u8; 8] = u64_bytes(nonce);
    let seeds: [&[u8]; 3] = [seed.as_slice(), player.bytes.as_slice(), nonce_bytes.as_slice()];
    assert(contents(seeds@) =~= bet_seeds(player@, nonce));
    find_canonical(&seeds, program_id)
}

/// The config account's address at a recorded bump.
pub fn config_at(bump: u8, program_id: &Pubkey) -> (key: Option<Pubkey>)
    ensures
        key_bytes(key) == derived(config_seeds().push(seq![bump]), program_id@),
{
    let seed: [u8; 6] = CONFIG_SEED;
    let last: [u8; 1] = [bump];
    let seeds: [&[u8]; 2] = [seed.as_slice(), last.as_slice()];
    assert(last@ =~= seq![bump]);
    assert(contents(seeds@) =~= config_seeds().push(seq![bump]));
    create_address(&seeds, program_id)
}

/// The treasury's address at a recorded bump.
pub fn treasury_at(bump: u8, program_id: &Pubkey) -> (key: Option<Pubkey>)
    ensures
        key_bytes(key) == derived(treasury_seeds().push(seq![bump]), program_id@),
{
    let seed: [u8; 8] = TREASURY_SEED;
    let last: [u8; 1] = [bump];
    let seeds: [&[u8]; 2] = [seed.as_slice(), last.as_slice()];
    assert(last@ =~= seq![bump]);
    assert(contents(seeds@) =~= treasury_seeds().push(seq![bump]));
    create_address(&seeds, program_id)
}

/// The address of a player's bet with a given nonce at a recorded bump.
pub fn bet_at(player: &Pubkey, nonce: u64, bump: u8, program_id: &Pubkey) -> (key: Option<Pubkey>)
    ensures
        key_bytes(key) == derived(bet_seeds(player@, nonce).push(seq![bump]), program_id@),
{
    let seed: [u8; 3] = BET_SEED;
    let nonce_bytes: [u8; 8] = u64_bytes(nonce);
    let last: [u8; 1] = [bump];
    let seeds: [&[u8]; 4] = [
        seed.as_slice(),
        player.bytes.as_slice(),
        nonce_bytes.as_slice(),
        last.as_slice(),
    ];
    assert(last@ =~= seq![bump]);
    assert(contents(seeds@) =~= bet_seeds(player@, nonce).push(seq![bump]));
    create_address(&seeds, program_id)
}

/// A canonical address is the one derived at its bump, so what was opened at
/// a canonical address is found again through the recorded bump.
pub proof fn canonical_is_derived(seeds: Seq<Seq<u8>>, program_id: Seq<u8>)
    ensures
        canonical(seeds, program_id) matches Some((key, bump)) ==> derived(
            seeds.push(seq![bump]),
            program_id,
        ) == Some(key),
{
}

/// The canonical address is the one at the highest bump that derives one, and
/// there is none only if no bump from 255 down to 1 derives one.
pub proof fn canonical_takes_the_highest_bump(
    seeds: Seq<Seq<u8>>,
    program_id: Seq<u8>,
    key: Seq<u8>,
    bump: u8,
)
    ensures
        canonical(seeds, program_id) == Some((key, bump)) <==> {
            &&& 1 <= bump
            &&& derived(seeds.push(seq![bump]), program_id) == Some(key)
            &&& forall|higher: u8|
                bump < higher ==> #[trigger] derived(seeds.push(seq![higher]), program_id) is None
        },
        canonical(seeds, program_id) is None <==> forall|any: u8|
            1 <= any ==> #[trigger] derived(seeds.push(seq![any]), program_id) is None,
{
    if is_canonical_bump(seeds, program_id, bump) {
        canonical_bump_is_unique(seeds, program_id, bump);
    }
    if canonical(seeds, program_id) is None {
        assert forall|any: u8| 1 <= any implies #[trigger] derived(
            seeds.push(seq![any]),
            program_id,
        ) is None by {
            nothing_below(seeds, program_id, any);
        }
    } else {
        let found = canonical(seeds, program_id).unwrap().1;
        assert(is_canonical_bump(seeds, program_id, found));
        assert(derived(seeds.push(seq![found]), program_id) is Some);
    }
}

/// Without a canonical bump no bump derives an address.
proof fn nothing_below(seeds: Seq<Seq<u8>>, program_id: Seq<u8>, bump: u8)
    requires
        canonical(seeds, program_id) is None,
        1 <= bump,
    ensures
        derived(seeds.push(seq![bump]), program_id) is None,
    decreases 255 - bump,
{
    assert forall|higher: u8| bump < higher implies #[trigger] derived(
        seeds.push(seq![higher]),
        program_id,
    ) is None by {
        nothing_below(seeds, program_id, higher);
    }
    assert(!is_canonical_bump(seeds, program_id, bump));
}

/// The seeds spell `config`, `treasury` and `bet`; a bet's are followed by its
/// player and its nonce.
pub proof fn seeds_spell_their_accounts(player: Seq<u8>, nonce: u64)
    ensures
        config_seeds() == seq![seq![99u8, 111u8, 110u8, 102u8, 105u8, 103u8]],
        treasury_seeds() == seq![seq![116u8, 114u8, 101u8, 97u8, 115u8, 117u8, 114u8, 121u8]],
        bet_seeds(player, nonce) == seq![seq![98u8, 101u8, 116u8], player, le_bytes(nonce)],
{
    assert(CONFIG_SEED@ =~= seq![99u8, 111u8, 110u8, 102u8, 105u8, 103u8]);
    assert(TREASURY_SEED@ =~= seq![116u8, 114u8, 101u8, 97u8, 115u8, 117u8, 114u8, 121u8]);
    assert(BET_SEED@ =~= seq![98u8, 101u8, 116u8]);
}

/// Bets of different players, or with different nonces, have different seeds.
pub proof fn every_bet_has_its_own_seeds(
    player: Seq<u8>,
    nonce: u64,
    other_player: Seq<u8>,
    other_nonce: u64,
)
    requires
        bet_seeds(player, nonce) == bet_seeds(other_player, other_nonce),
    ensures
        player == other_player,
        nonce == other_nonce,
{
    assert(bet_seeds(player, nonce)[1] == bet_seeds(other_player, other_nonce)[1]);
    assert(bet_seeds(player, nonce)[2] == bet_seeds(other_player, other_nonce)[2]);
    le_round_trip(nonce);
    le_round_trip(other_nonce);
}

/// An address that may be missing has its own bytes, and none if missing.
pub proof fn bytes_are_those_of_the_key(key: Pubkey, bump: u8)
    ensures
        key_bytes(Some(key)) == Some(key.bytes@),
        key_bytes(None) is None,
        found_bytes(Some((key, bump))) == Some((key.bytes@, bump)),
        found_bytes(None) is None,
{
}

} // verus!
