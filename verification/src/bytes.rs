//! Byte strings: lists of them, and the little-endian encoding of `u64`.

use vstd::prelude::*;
use vstd::slice::slice_subrange;

verus! {

/// The contents of a list of byte slices.
pub open spec fn contents(parts: Seq<&[u8]>) -> Seq<Seq<u8>> {
    Seq::new(parts.len(), |i: int| parts[i]@)
}

/// The number that eight bytes spell, least significant byte first.
pub open spec fn le_value(s: Seq<u8>) -> int {
    s[0] + 0x100 * s[1] + 0x1_0000 * s[2] + 0x100_0000 * s[3] + 0x1_0000_0000 * s[4]
        + 0x100_0000_0000 * s[5] + 0x1_0000_0000_0000 * s[6] + 0x100_0000_0000_0000 * s[7]
}

/// The eight bytes that spell `x`, least significant byte first.
pub open spec fn le_bytes(x: u64) -> Seq<u8> {
    Seq::new(8, |i: int| (shifted(x, i as nat) % 0x100) as u8)
}

/// `x` without its `n` low bytes.
pub open spec fn shifted(x: u64, n: nat) -> u64
    decreases n,
{
    if n == 0 {
        x
    } else {
        shifted((x / 0x100) as u64, (n - 1) as nat)
    }
}

/// A number is its low byte plus 256 times the rest.
proof fn low_byte(x: u64)
    ensures
        x == 0x100 * (x / 0x100) + x % 0x100,
        x % 0x100 < 0x100,
{
}

/// Encoding then decoding gives the number back.
pub proof fn le_round_trip(x: u64)
    ensures
        le_bytes(x).len() == 8,
        le_value(le_bytes(x)) == x,
{
    let q1: u64 = x / 0x100;
    let q2: u64 = q1 / 0x100;
    let q3: u64 = q2 / 0x100;
    let q4: u64 = q3 / 0x100;
    let q5: u64 = q4 / 0x100;
    let q6: u64 = q5 / 0x100;
    let q7: u64 = q6 / 0x100;
    low_byte(x);
    low_byte(q1);
    low_byte(q2);
    low_byte(q3);
    low_byte(q4);
    low_byte(q5);
    low_byte(q6);
    assert(q7 < 0x100);
    reveal_with_fuel(shifted, 8);
}

/// The low byte comes first; behind it stand the bytes of the rest, moved up
/// by one place.
pub proof fn low_byte_comes_first(x: u64)
    ensures
        le_bytes(x)[0] == x % 256,
        forall|i: int| 0 <= i < 7 ==> #[trigger] le_bytes(x)[i + 1] == le_bytes(x / 256)[i],
{
    assert forall|i: int| 0 <= i < 7 implies #[trigger] le_bytes(x)[i + 1] == le_bytes(
        x / 256,
    )[i] by {
        assert(shifted(x, (i + 1) as nat) == shifted(x / 256, i as nat));
    }
}

/// Eight bytes spell a number that fits, and one that is spelled by no other
/// eight bytes: encoding it gives them back.
pub proof fn le_decode_encode(s: Seq<u8>)
    requires
        s.len() == 8,
    ensures
        0 <= le_value(s) <= u64::MAX,
        le_bytes(le_value(s) as u64) == s,
{
    let q7: int = s[7] as int;
    let q6: int = s[6] + 256 * q7;
    let q5: int = s[5] + 256 * q6;
    let q4: int = s[4] + 256 * q5;
    let q3: int = s[3] + 256 * q4;
    let q2: int = s[2] + 256 * q3;
    let q1: int = s[1] + 256 * q2;
    let q0: int = s[0] + 256 * q1;
    assert(le_value(s) == q0);
    reveal_with_fuel(shifted, 8);
    assert(q0 / 256 == q1 && q0 % 256 == s[0]);
    assert(q1 / 256 == q2 && q1 % 256 == s[1]);
    assert(q2 / 256 == q3 && q2 % 256 == s[2]);
    assert(q3 / 256 == q4 && q3 % 256 == s[3]);
    assert(q4 / 256 == q5 && q4 % 256 == s[4]);
    assert(q5 / 256 == q6 && q5 % 256 == s[5]);
    assert(q6 / 256 == q7 && q6 % 256 == s[6]);
    assert(le_bytes(q0 as u64) =~= s);
}

/// The contents of a list of slices are those of each slice, in order.
pub proof fn contents_keep_every_part(parts: Seq<&[u8]>)
    ensures
        contents(parts).len() == parts.len(),
        forall|i: int| 0 <= i < parts.len() ==> #[trigger] contents(parts)[i] == parts[i]@,
{
}

/// Decodes the eight bytes that start at `at`.
pub fn read_u64(data: &[u8], at: usize) -> (x: u64)
    requires
        at + 8 <= data.len(),
    ensures
        x == le_value(data@.subrange(at as int, at + 8)),
{
    let s = slice_subrange(data, at, at + 8);
    s[0] as u64 + 0x100 * (s[1] as u64) + 0x1_0000 * (s[2] as u64) + 0x100_0000 * (s[3] as u64)
        + 0x1_0000_0000 * (s[4] as u64) + 0x100_0000_0000 * (s[5] as u64) + 0x1_0000_0000_0000 * (
    s[6] as u64) + 0x100_0000_0000_0000 * (s[7] as u64)
}

/// Encodes `x`.
pub fn u64_bytes(x: u64) -> (bytes: [u8; 8])
    ensures
        bytes@ == le_bytes(x),
{
    let mut bytes: [u8; 8] = [0; 8];
    let mut rest: u64 = x;
    let mut i: usize = 0;
    while i < 8
        invariant
            i <= 8,
            forall|n: nat| #[trigger] shifted(rest, n) == shifted(x, n + i as nat),
            forall|k: int| 0 <= k < i ==> bytes@[k] == le_bytes(x)[k],
        decreases 8 - i,
    {
        assert(shifted(rest, 0) == rest);
        bytes[i] = (rest % 0x100) as u8;
        proof {
            let next: u64 = rest / 0x100;
            assert forall|n: nat| #[trigger] shifted(next, n) == shifted(x, n + (i + 1) as nat) by {
                assert(shifted(rest, n + 1) == shifted(next, n));
            }
        }
        rest = rest / 0x100;
        i += 1;
    }
    assert(bytes@ =~= le_bytes(x));
    bytes
}

} // verus!
