//! Lookup in the raw data of the SlotHashes sysvar.
//!
//! Layout: a `u64` entry count, then that many pairs of a `u64` slot and its
//! 32-byte hash, sorted by slot in descending order.

use vstd::prelude::*;

use crate::bytes::{le_bytes, le_decode_encode, le_round_trip, le_value, read_u64};

verus! {

/// How many entries the table says it has.
pub open spec fn entry_count(data: Seq<u8>) -> int {
    le_value(data.subrange(0, 8))
}

/// The slot of entry `i`.
pub open spec fn slot_at(data: Seq<u8>, i: int) -> int {
    le_value(data.subrange(8 + 40 * i, 16 + 40 * i))
}

/// The hash of entry `i`.
pub open spec fn hash_at(data: Seq<u8>, i: int) -> Seq<u8> {
    data.subrange(16 + 40 * i, 48 + 40 * i)
}

/// Entry `i` is a complete entry for `target`, and every entry before it is
/// for a later slot.
pub open spec fn holds_at(data: Seq<u8>, target: int, i: int) -> bool {
    &&& 8 <= data.len()
    &&& 0 <= i < entry_count(data)
    &&& 48 + 40 * i <= data.len()
    &&& slot_at(data, i) == target
    &&& forall|j: int| 0 <= j < i ==> #[trigger] slot_at(data, j) > target
}

/// The hash that the table gives for slot `target`, if any.
pub open spec fn lookup(data: Seq<u8>, target: int) -> Option<Seq<u8>> {
    if exists|i: int| holds_at(data, target, i) {
        Some(hash_at(data, choose|i: int| holds_at(data, target, i)))
    } else {
        None
    }
}

/// The data is a complete table with its slots in descending order.
pub open spec fn is_slot_hashes(data: Seq<u8>) -> bool {
    &&& 8 <= data.len()
    &&& 8 + 40 * entry_count(data) <= data.len()
    &&& forall|i: int, j: int|
        0 <= i < j < entry_count(data) ==> #[trigger] slot_at(data, i) > #[trigger] slot_at(data, j)
}

/// At most one entry is the one for a given slot.
proof fn entry_is_unique(data: Seq<u8>, target: int, i: int)
    requires
        holds_at(data, target, i),
    ensures
        lookup(data, target) == Some(hash_at(data, i)),
{
    let c = choose|k: int| holds_at(data, target, k);
    assert(holds_at(data, target, c));
    if i < c {
        assert(slot_at(data, i) > target);
    }
    if c < i {
        assert(slot_at(data, c) > target);
    }
}

/// In a complete, descending table the lookup of an entry's slot gives that
/// entry's hash.
pub proof fn lookup_finds_every_entry(data: Seq<u8>, i: int)
    requires
        is_slot_hashes(data),
        0 <= i < entry_count(data),
    ensures
        lookup(data, slot_at(data, i)) == Some(hash_at(data, i)),
{
    assert(holds_at(data, slot_at(data, i), i));
    entry_is_unique(data, slot_at(data, i), i);
}

/// The lookup of a slot that no entry has finds nothing.
pub proof fn lookup_finds_only_entries(data: Seq<u8>, target: int)
    requires
        forall|i: int| 0 <= i < entry_count(data) ==> #[trigger] slot_at(data, i) != target,
    ensures
        lookup(data, target) is None,
{
}

/// The bytes of a list of slots with their hashes, one pair after the other.
pub open spec fn listed(pairs: Seq<(u64, Seq<u8>)>) -> Seq<u8>
    decreases pairs.len(),
{
    if pairs.len() == 0 {
        Seq::empty()
    } else {
        listed(pairs.drop_last()) + le_bytes(pairs.last().0) + pairs.last().1
    }
}

/// Every hash of the list has 32 bytes.
pub open spec fn are_hashes(pairs: Seq<(u64, Seq<u8>)>) -> bool {
    forall|i: int| 0 <= i < pairs.len() ==> (#[trigger] pairs[i]).1.len() == 32
}

/// A list takes 40 bytes a pair, and each pair stands in its place.
proof fn listed_in_place(pairs: Seq<(u64, Seq<u8>)>)
    requires
        are_hashes(pairs),
    ensures
        listed(pairs).len() == 40 * pairs.len(),
        forall|i: int|
            0 <= i < pairs.len() ==> {
                &&& listed(pairs).subrange(40 * i, 40 * i + 8) == le_bytes(
                    (#[trigger] pairs[i]).0,
                )
                &&& listed(pairs).subrange(40 * i + 8, 40 * i + 40) == pairs[i].1
            },
    decreases pairs.len(),
{
    if pairs.len() > 0 {
        let front = pairs.drop_last();
        let n: int = front.len() as int;
        assert(are_hashes(front)) by {
            assert forall|i: int| 0 <= i < front.len() implies (#[trigger] front[i]).1.len()
                == 32 by {
                assert(front[i] == pairs[i]);
            }
        }
        listed_in_place(front);
        let all = listed(pairs);
        let before = listed(front);
        assert(pairs.last() == pairs[n]);
        assert(all == before + le_bytes(pairs[n].0) + pairs[n].1);
        assert(le_bytes(pairs[n].0).len() == 8);
        assert forall|i: int| 0 <= i < pairs.len() implies {
            &&& all.subrange(40 * i, 40 * i + 8) == le_bytes((#[trigger] pairs[i]).0)
            &&& all.subrange(40 * i + 8, 40 * i + 40) == pairs[i].1
        } by {
            if i < n {
                assert(front[i] == pairs[i]);
                assert(all.subrange(40 * i, 40 * i + 8) =~= before.subrange(40 * i, 40 * i + 8));
                assert(all.subrange(40 * i + 8, 40 * i + 40) =~= before.subrange(
                    40 * i + 8,
                    40 * i + 40,
                ));
            } else {
                assert(all.subrange(40 * i, 40 * i + 8) =~= le_bytes(pairs[i].0));
                assert(all.subrange(40 * i + 8, 40 * i + 40) =~= pairs[i].1);
            }
        }
    }
}

/// Reading a table by position gives the count and the pairs it was made of.
proof fn table_in_place(count: u64, pairs: Seq<(u64, Seq<u8>)>, rest: Seq<u8>)
    requires
        are_hashes(pairs),
    ensures
        ({
            let data = le_bytes(count) + listed(pairs) + rest;
            &&& data.len() == 8 + 40 * pairs.len() + rest.len()
            &&& entry_count(data) == count
            &&& forall|i: int|
                0 <= i < pairs.len() ==> {
                    &&& slot_at(data, i) == (#[trigger] pairs[i]).0
                    &&& hash_at(data, i) == pairs[i].1
                }
        }),
{
    let data = le_bytes(count) + listed(pairs) + rest;
    listed_in_place(pairs);
    le_round_trip(count);
    assert(data.subrange(0, 8) =~= le_bytes(count));
    assert forall|i: int| 0 <= i < pairs.len() implies {
        &&& slot_at(data, i) == (#[trigger] pairs[i]).0
        &&& hash_at(data, i) == pairs[i].1
    } by {
        le_round_trip(pairs[i].0);
        assert(data.subrange(8 + 40 * i, 16 + 40 * i) =~= listed(pairs).subrange(
            40 * i,
            40 * i + 8,
        ));
        assert(data.subrange(16 + 40 * i, 48 + 40 * i) =~= listed(pairs).subrange(
            40 * i + 8,
            40 * i + 40,
        ));
    }
}

/// What a table gives up, byte for byte: written as a count and then slots
/// with their hashes, it gives for a counted pair's slot that pair's hash,
/// wherever all pairs before it are for later slots. What stands behind does
/// not matter.
pub proof fn table_gives_the_stored_hash(
    count: u64,
    pairs: Seq<(u64, Seq<u8>)>,
    rest: Seq<u8>,
    i: int,
)
    requires
        are_hashes(pairs),
        0 <= i < pairs.len(),
        i < count,
        forall|j: int| 0 <= j < i ==> (#[trigger] pairs[j]).0 > pairs[i].0,
    ensures
        lookup(le_bytes(count) + listed(pairs) + rest, pairs[i].0 as int) == Some(pairs[i].1),
{
    let data = le_bytes(count) + listed(pairs) + rest;
    let target: int = pairs[i].0 as int;
    table_in_place(count, pairs, rest);
    assert forall|j: int| 0 <= j < i implies #[trigger] slot_at(data, j) > target by {
        assert(pairs[j].0 > pairs[i].0);
    }
    assert(holds_at(data, target, i));
    entry_is_unique(data, target, i);
}

/// What a table does not give up: nothing is found for a slot that no counted
/// pair has with only later slots before it, if the count ends with the pairs
/// or too little stands behind them to be another pair.
pub proof fn table_gives_nothing_else(
    count: u64,
    pairs: Seq<(u64, Seq<u8>)>,
    rest: Seq<u8>,
    target: u64,
)
    requires
        are_hashes(pairs),
        count <= pairs.len() || rest.len() < 40,
        forall|i: int|
            0 <= i < pairs.len() && i < count && (#[trigger] pairs[i]).0 == target ==> (exists|j: int|
                0 <= j < i && (#[trigger] pairs[j]).0 <= target),
    ensures
        lookup(le_bytes(count) + listed(pairs) + rest, target as int) is None,
{
    let data = le_bytes(count) + listed(pairs) + rest;
    table_in_place(count, pairs, rest);
    assert forall|i: int| !holds_at(data, target as int, i) by {
        if holds_at(data, target as int, i) {
            assert(i < pairs.len()) by {
                if i >= pairs.len() {
                    assert(48 + 40 * i >= 48 + 40 * pairs.len());
                }
            }
            assert(pairs[i].0 == target);
            let j = choose|j: int| 0 <= j < i && (#[trigger] pairs[j]).0 <= target;
            assert(slot_at(data, j) == pairs[j].0);
        }
    }
}

/// The SlotHashes data as the cluster keeps it, with any number of slots in
/// descending order, gives up the hash of each of its slots and of no other.
pub proof fn full_table_gives_up_every_hash(pairs: Seq<(u64, Seq<u8>)>, rest: Seq<u8>)
    requires
        are_hashes(pairs),
        pairs.len() <= u64::MAX,
        forall|i: int, j: int|
            0 <= i < j < pairs.len() ==> (#[trigger] pairs[i]).0 > (#[trigger] pairs[j]).0,
    ensures
        ({
            let data = le_bytes(pairs.len() as u64) + listed(pairs) + rest;
            &&& forall|i: int|
                0 <= i < pairs.len() ==> lookup(data, (#[trigger] pairs[i]).0 as int) == Some(
                    pairs[i].1,
                )
            &&& forall|target: u64|
                (forall|i: int| 0 <= i < pairs.len() ==> (#[trigger] pairs[i]).0 != target)
                    ==> #[trigger] lookup(data, target as int) is None
        }),
{
    let count: u64 = pairs.len() as u64;
    let data = le_bytes(count) + listed(pairs) + rest;
    assert forall|i: int| 0 <= i < pairs.len() implies lookup(
        data,
        (#[trigger] pairs[i]).0 as int,
    ) == Some(pairs[i].1) by {
        table_gives_the_stored_hash(count, pairs, rest, i);
    }
    assert forall|target: u64|
        (forall|i: int| 0 <= i < pairs.len() ==> (#[trigger] pairs[i]).0 != target) implies (
    #[trigger] lookup(data, target as int)) is None by {
        table_gives_nothing_else(count, pairs, rest, target);
    }
}

/// Data too short for a count holds nothing.
pub proof fn data_without_a_count_gives_nothing(data: Seq<u8>, target: int)
    requires
        data.len() < 8,
    ensures
        lookup(data, target) is None,
{
}

/// Any data with a count is such a table: a count, as many whole pairs as
/// there are, and less than a pair behind them. So the laws on tables say
/// what is found in any data.
pub proof fn any_data_is_a_table(data: Seq<u8>) -> (parts: (u64, Seq<(u64, Seq<u8>)>, Seq<u8>))
    requires
        8 <= data.len(),
    ensures
        are_hashes(parts.1),
        parts.2.len() < 40,
        data == le_bytes(parts.0) + listed(parts.1) + parts.2,
{
    let head = data.subrange(0, 8);
    let tail = data.subrange(8, data.len() as int);
    le_decode_encode(head);
    let (pairs, rest) = pairs_of(tail);
    assert(data =~= le_bytes(le_value(head) as u64) + listed(pairs) + rest) by {
        assert(data =~= head + tail);
        assert(head + (listed(pairs) + rest) =~= head + listed(pairs) + rest);
    }
    (le_value(head) as u64, pairs, rest)
}

/// Splits bytes into whole pairs and what is left.
proof fn pairs_of(data: Seq<u8>) -> (parts: (Seq<(u64, Seq<u8>)>, Seq<u8>))
    ensures
        are_hashes(parts.0),
        parts.1.len() < 40,
        data == listed(parts.0) + parts.1,
        40 * parts.0.len() <= data.len(),
    decreases data.len(),
{
    let n: int = data.len() as int;
    if n < 40 {
        let none = Seq::<(u64, Seq<u8>)>::empty();
        assert(data =~= listed(none) + data);
        (none, data)
    } else {
        let (pairs, rest) = pairs_of(data.subrange(0, n - 40));
        // The bytes left over in front of the last 40 belong to the pair that
        // these complete.
        let k: int = 40 * pairs.len() as int;
        listed_in_place(pairs);
        let slot = data.subrange(k, k + 8);
        let hash = data.subrange(k + 8, k + 40);
        le_decode_encode(slot);
        let more = pairs.push((le_value(slot) as u64, hash));
        assert(more.drop_last() =~= pairs);
        assert(are_hashes(more)) by {
            assert forall|i: int| 0 <= i < more.len() implies (#[trigger] more[i]).1.len()
                == 32 by {
                if i < pairs.len() {
                    assert(more[i] == pairs[i]);
                }
            }
        }
        let left = data.subrange(k + 40, n);
        assert(data.subrange(0, k) =~= listed(pairs)) by {
            assert(data.subrange(0, k) =~= data.subrange(0, n - 40).subrange(0, k));
            assert((listed(pairs) + rest).subrange(0, k) =~= listed(pairs));
        }
        assert(data =~= data.subrange(0, k) + slot + hash + left);
        (more, left)
    }
}

/// Copies the 32 bytes that start at `at`.
fn read_hash(data: &[u8], at: usize) -> (hash: [u8; 32])
    requires
        at + 32 <= data.len(),
    ensures
        hash@ == data@.subrange(at as int, at + 32),
{
    let mut hash: [u8; 32] = [0; 32];
    let mut k: usize = 0;
    while k < 32
        invariant
            k <= 32,
            at + 32 <= data.len(),
            forall|m: int| 0 <= m < k ==> hash@[m] == data@[at + m],
        decreases 32 - k,
    {
        hash[k] = data[at + k];
        k += 1;
    }
    assert(hash@ =~= data@.subrange(at as int, at + 32));
    hash
}

/// Scans the raw SlotHashes data for `target_slot`. Entries are descending,
/// so the scan stops at the first slot that is not above the target.
pub fn find_slot_hash(data: &[u8], target_slot: u64) -> (found: Option<[u8; 32]>)
    ensures
        match found {
            Some(hash) => lookup(data@, target_slot as int) == Some(hash@),
            None => lookup(data@, target_slot as int) is None,
        },
{
    let len: usize = data.len();
    if len < 8 {
        return None;
    }
    let count: u64 = read_u64(data, 0);
    let mut i: u64 = 0;
    let mut off: usize = 8;
    while i < count
        invariant
            8 <= len,
            len == data@.len(),
            count == entry_count(data@),
            i <= count,
            off == 8 + 40 * i,
            off <= len,
            forall|j: int| 0 <= j < i ==> #[trigger] slot_at(data@, j) > target_slot,
        decreases count - i,
    {
        if len - off < 8 {
            return None;
        }
        let slot: u64 = read_u64(data, off);
        assert(slot == slot_at(data@, i as int));
        if slot == target_slot {
            if len - off < 40 {
                assert forall|k: int| !holds_at(data@, target_slot as int, k) by {
                    if i < k {
                        assert(48 + 40 * k > len);
                    }
                }
                return None;
            }
            proof {
                assert(holds_at(data@, target_slot as int, i as int));
                entry_is_unique(data@, target_slot as int, i as int);
            }
            return Some(read_hash(data, off + 8));
        }
        if slot < target_slot {
            // Entries are descending: the target is not present.
            assert forall|k: int| !holds_at(data@, target_slot as int, k) by {
                if i < k {
                    assert(slot_at(data@, i as int) <= target_slot);
                }
            }
            return None;
        }
        if len - off < 40 {
            return None;
        }
        off += 40;
        i += 1;
    }
    None
}

} // verus!
