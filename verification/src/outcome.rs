//! How a slot hash decides a bet.

use anchor_lang::solana_program::hash::hashv;
use vstd::prelude::*;

use crate::bytes::{contents, le_bytes, le_round_trip, le_value, read_u64, u64_bytes};
use crate::constants::WIN_PERCENT;
use crate::pubkey::Pubkey;

verus! {

/// The SHA-256 digest of the given byte strings, taken one after the other.
pub uninterp spec fn sha256(parts: Seq<Seq<u8>>) -> Seq<u8>;

/// Calls `solana_program::hash::hashv`. Claims that the 32 bytes it returns
/// depend on the contents of the slices alone, and names them.
#[verifier::external_body]
fn hash_parts(parts: &[&[u8]]) -> (digest: [u8; 32])
    ensures
        digest@ == sha256(contents(parts@)),
{
    hashv(parts).to_bytes()
}

/// The digest that decides a bet: of the target slot's hash, the bet's
/// address and the target slot.
pub open spec fn digest_for(slot_hash: Seq<u8>, bet: Seq<u8>, target_slot: u64) -> Seq<u8> {
    sha256(seq![slot_hash, bet, le_bytes(target_slot)])
}

/// The first eight bytes of a digest as a number.
pub open spec fn draw(digest: Seq<u8>) -> int {
    le_value(digest.subrange(0, 8))
}

/// A number in 0..100.
pub open spec fn roll_of(drawn: int) -> int {
    drawn % 100
}

/// Whether the player wins on a drawn number.
pub open spec fn wins_on(drawn: int) -> bool {
    roll_of(drawn) < WIN_PERCENT
}

/// Whether the player wins on a digest.
pub open spec fn wins(digest: Seq<u8>) -> bool {
    wins_on(draw(digest))
}

/// Computes the digest that decides a bet.
pub fn outcome_digest(slot_hash: &[u8; 32], bet: &Pubkey, target_slot: u64) -> (digest: [u8; 32])
    ensures
        digest@ == digest_for(slot_hash@, bet@, target_slot),
{
    let slot: [u8; 8] = u64_bytes(target_slot);
    let parts: [&[u8]; 3] = [slot_hash.as_slice(), bet.bytes.as_slice(), slot.as_slice()];
    assert(contents(parts@) =~= seq![slot_hash@, bet@, le_bytes(target_slot)]);
    hash_parts(&parts)
}

/// The roll that a digest gives.
pub fn roll(digest: &[u8; 32]) -> (r: u64)
    ensures
        r == roll_of(draw(digest@)),
        r < 100,
{
    read_u64(digest.as_slice(), 0) % 100
}

/// How many of the `n` numbers from `start` on win.
pub open spec fn wins_among(start: int, n: nat) -> nat
    decreases n,
{
    if n == 0 {
        0
    } else {
        wins_among(start, (n - 1) as nat) + if wins_on(start + n - 1) {
            1nat
        } else {
            0
        }
    }
}

/// Below 100 the winning numbers are those below the percentage.
proof fn wins_below_a_hundred(n: nat)
    requires
        n <= 100,
    ensures
        wins_among(0, n) == if n <= WIN_PERCENT {
            n
        } else {
            WIN_PERCENT as nat
        },
    decreases n,
{
    if n > 0 {
        wins_below_a_hundred((n - 1) as nat);
    }
}

/// Dropping the first of `n + 1` numbers.
proof fn wins_among_from_next(start: int, n: nat)
    ensures
        wins_among(start, n + 1) == wins_among(start + 1, n) + if wins_on(start) {
            1nat
        } else {
            0
        },
    decreases n,
{
    if n > 0 {
        wins_among_from_next(start, (n - 1) as nat);
    } else {
        assert(wins_among(start, 0) == 0);
        assert(wins_among(start + 1, 0) == 0);
    }
}

/// Of any hundred consecutive numbers that can be drawn, exactly 49 win.
pub proof fn win_rate(start: nat)
    ensures
        wins_among(start as int, 100) == WIN_PERCENT,
    decreases start,
{
    if start == 0 {
        wins_below_a_hundred(100);
    } else {
        let before: int = start - 1;
        win_rate(before as nat);
        wins_among_from_next(before, 100);
        assert(wins_among(before, 101) == wins_among(before, 100) + if wins_on(before + 100) {
            1nat
        } else {
            0
        });
    }
}

/// Counting over two adjacent stretches.
proof fn wins_add_up(start: int, n: nat, m: nat)
    ensures
        wins_among(start, n + m) == wins_among(start, n) + wins_among(start + n, m),
    decreases m,
{
    if m > 0 {
        wins_add_up(start, n, (m - 1) as nat);
    } else {
        assert(wins_among(start + n, 0) == 0);
    }
}

/// Of `hundreds` times a hundred consecutive numbers, 49 in a hundred win.
proof fn wins_in_hundreds(hundreds: nat)
    ensures
        wins_among(0, 100 * hundreds) == WIN_PERCENT * hundreds,
    decreases hundreds,
{
    if hundreds > 0 {
        let before: nat = (hundreds - 1) as nat;
        wins_in_hundreds(before);
        wins_add_up(0, 100 * before, 100);
        win_rate(100 * before);
    } else {
        assert(wins_among(0, 0) == 0);
    }
}

/// Of the 2^64 numbers that can be drawn, 49 in a hundred win, and the last
/// sixteen, which fill no hundred, win too.
pub proof fn winning_draws()
    ensures
        wins_among(0, 0x1_0000_0000_0000_0000) == WIN_PERCENT * (0x1_0000_0000_0000_0000int / 100)
            + 16,
{
    let hundreds: nat = 184_467_440_737_095_516;
    wins_in_hundreds(hundreds);
    wins_add_up(0, 100 * hundreds, 16);
    assert(wins_among(100 * hundreds as int, 16) == 16) by {
        reveal_with_fuel(wins_among, 17);
    }
}

/// What the player gains on a drawn number: the bet on a win, minus the bet
/// otherwise.
pub open spec fn gain_on(drawn: int, amount: int) -> int {
    if wins_on(drawn) {
        amount
    } else {
        -amount
    }
}

/// What the player gains over the `n` numbers from `start` on.
pub open spec fn gain_among(start: int, n: nat, amount: int) -> int
    decreases n,
{
    if n == 0 {
        0
    } else {
        gain_among(start, (n - 1) as nat, amount) + gain_on(start + n - 1, amount)
    }
}

proof fn gain_counts_wins(start: int, n: nat, amount: int)
    ensures
        gain_among(start, n, amount) == amount * (2 * wins_among(start, n) - n),
    decreases n,
{
    if n > 0 {
        let m: nat = (n - 1) as nat;
        gain_counts_wins(start, m, amount);
        let w: int = wins_among(start, m) as int;
        assert(amount * (2 * (w + 1) - (m + 1)) == amount * (2 * w - m) + amount)
            by (nonlinear_arith);
        assert(amount * (2 * w - (m + 1)) == amount * (2 * w - m) - amount) by (nonlinear_arith);
    } else {
        assert(wins_among(start, 0) == 0);
        assert(amount * 0 == 0) by (nonlinear_arith);
    }
}

/// The house's edge is 2%: over any hundred consecutive numbers that can be
/// drawn the player loses two bets out of the hundred placed.
pub proof fn house_edge(start: nat, amount: int)
    ensures
        gain_among(start as int, 100, amount) == -2 * amount,
{
    win_rate(start);
    gain_counts_wins(start as int, 100, amount);
    assert(amount * (2 * 49 - 100) == -2 * amount) by (nonlinear_arith);
}

/// The roll is the number that a digest's first eight bytes spell, modulo a
/// hundred, and the player wins iff it is below 49. The digest's other bytes
/// do not matter.
pub proof fn first_eight_bytes_decide(drawn: u64, others: Seq<u8>)
    ensures
        roll_of(draw(le_bytes(drawn) + others)) == drawn % 100,
        wins(le_bytes(drawn) + others) <==> drawn % 100 < 49,
{
    le_round_trip(drawn);
    assert((le_bytes(drawn) + others).subrange(0, 8) =~= le_bytes(drawn));
}

/// The digest is taken of the slot's hash, the bet's address and the target
/// slot, in that order.
pub proof fn digest_takes_hash_address_and_slot(slot_hash: Seq<u8>, bet: Seq<u8>, target_slot: u64)
    ensures
        digest_for(slot_hash, bet, target_slot) == sha256(
            seq![slot_hash, bet, le_bytes(target_slot)],
        ),
{
}

/// A drawn number wins iff it is below 49 modulo a hundred; then the player
/// gains the bet, and else loses it. Counts and gains add up number by number.
pub proof fn draws_are_counted_one_by_one(drawn: int, start: int, n: nat, amount: int)
    ensures
        wins_on(drawn) <==> drawn % 100 < 49,
        gain_on(drawn, amount) == if drawn % 100 < 49 {
            amount
        } else {
            -amount
        },
        wins_among(start, 0) == 0,
        wins_among(start, n + 1) == wins_among(start, n) + if (start + n) % 100 < 49 {
            1int
        } else {
            0
        },
        gain_among(start, 0, amount) == 0,
        gain_among(start, n + 1, amount) == gain_among(start, n, amount) + gain_on(
            start + n,
            amount,
        ),
{
}

} // verus!
