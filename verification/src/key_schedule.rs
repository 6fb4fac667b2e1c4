use vstd::prelude::*;

use crate::errors::NcmError;

verus! {

/// State carried between rounds of the key-schedule construction: the table
/// being permuted, the rolling byte fed back from the previous round, and the
/// cyclic offset into the key material.
pub ghost struct KsState {
    pub table: Seq<u8>,
    pub last_byte: u8,
    pub offset: nat,
}

/// The table every schedule starts from: entry `i` holds the byte `i`.
pub open spec fn identity_table() -> Seq<u8> {
    Seq::new(256, |i: int| i as u8)
}

/// The state after `n` rounds of the keyed permutation. Round `count`
/// computes `c = (table[count] + last_byte + key[offset]) mod 256`, advances
/// the offset cyclically, swaps `table[c]` with `table[count]`, and feeds `c`
/// back as the next round's `last_byte`.
pub open spec fn ks_state(key: Seq<u8>, n: nat) -> KsState
    decreases n,
{
    if n == 0 {
        KsState { table: identity_table(), last_byte: 0, offset: 0 }
    } else {
        let prev = ks_state(key, (n - 1) as nat);
        let count = n - 1;
        let c = (prev.table[count] + prev.last_byte + key[prev.offset as int]) % 256;
        let next_offset: nat = if prev.offset + 1 >= key.len() {
            0
        } else {
            prev.offset + 1
        };
        KsState {
            table: prev.table.update(c, prev.table[count]).update(count, prev.table[c]),
            last_byte: c as u8,
            offset: next_offset,
        }
    }
}

/// The finished 256-entry substitution table for the given key material.
pub open spec fn key_schedule(key: Seq<u8>) -> Seq<u8> {
    ks_state(key, 256).table
}

/// A well-formed key schedule as the stream cipher consumes it.
pub open spec fn is_key_schedule(table: Seq<u8>) -> bool {
    table.len() == 256
}

proof fn lemma_ks_state_table_len(key: Seq<u8>, n: nat)
    requires
        n <= 256,
    ensures
        ks_state(key, n).table.len() == 256,
    decreases n,
{
    if n > 0 {
        lemma_ks_state_table_len(key, (n - 1) as nat);
        let prev = ks_state(key, (n - 1) as nat);
        let count = n - 1;
        let c = (prev.table[count] + prev.last_byte + key[prev.offset as int]) % 256;
        assert(0 <= c < 256);
        assert(0 <= count < 256);
    }
}

/// Each round only swaps two entries, so the multiset of table entries never
/// changes from the identity table's.
proof fn lemma_ks_state_multiset(key: Seq<u8>, n: nat)
    requires
        n <= 256,
    ensures
        ks_state(key, n).table.to_multiset() =~= identity_table().to_multiset(),
    decreases n,
{
    broadcast use vstd::seq_lib::group_to_multiset_ensures;
    broadcast use vstd::multiset::group_multiset_axioms;

    if n > 0 {
        lemma_ks_state_multiset(key, (n - 1) as nat);
        lemma_ks_state_table_len(key, (n - 1) as nat);
        let prev = ks_state(key, (n - 1) as nat);
        let count = n - 1;
        let c = (prev.table[count] + prev.last_byte + key[prev.offset as int]) % 256;
        assert(0 <= c < 256);
        assert(0 <= count < 256);
        let tm = prev.table.to_multiset();
        let mid = prev.table.update(c, prev.table[count]);
        assert(mid.to_multiset() == tm.insert(prev.table[count]).remove(prev.table[c]));
        let fin = mid.update(count, prev.table[c]);
        assert(fin.to_multiset() == mid.to_multiset().insert(prev.table[c]).remove(mid[count]));
        assert(mid[count] == prev.table[count]);
        assert(prev.table.contains(prev.table[c]));
        assert(tm.count(prev.table[c]) > 0);
        assert(prev.table.contains(prev.table[count]));
        assert(tm.count(prev.table[count]) > 0);
        assert(fin.to_multiset() =~= tm);
        assert(ks_state(key, n).table == fin);
    }
}

/// The key schedule is a permutation of the byte values: its 256 entries are
/// exactly the bytes 0 through 255, each once. Sorting the table would give
/// back the identity table.
pub proof fn lemma_key_schedule_is_permutation(key: Seq<u8>)
    requires
        key.len() > 0,
    ensures
        key_schedule(key).len() == 256,
        key_schedule(key).to_multiset() =~= identity_table().to_multiset(),
        forall|b: u8| key_schedule(key).contains(b),
{
    broadcast use vstd::seq_lib::group_to_multiset_ensures;

    lemma_ks_state_table_len(key, 256);
    lemma_ks_state_multiset(key, 256);
    assert forall|b: u8| key_schedule(key).contains(b) by {
        assert(identity_table()[b as int] == b);
        assert(identity_table().contains(b));
        assert(identity_table().to_multiset().count(b) > 0);
        assert(key_schedule(key).to_multiset().count(b) > 0);
    }
}

/// Builds the 256-entry substitution table from the decrypted key material,
/// exactly as `key_schedule` describes. The only failure is empty key
/// material, which would make the cyclic offset meaningless.
pub fn build_key_box(key: Vec<u8>) -> (r: Result<Vec<u8>, NcmError>)
    ensures
        key@.len() == 0 ==> (r matches Err(e) && e == NcmError::EmptyKeyMaterial),
        key@.len() > 0 ==> (r matches Ok(t) && t@ == key_schedule(key@) && is_key_schedule(t@)),
{
    if key.len() == 0 {
        return Err(NcmError::EmptyKeyMaterial);
    }
    let mut table: Vec<u8> = Vec::new();
    let mut i: usize = 0;
    while i < 256
        invariant
            i <= 256,
            table@.len() == i,
            forall|k: int| 0 <= k < i ==> table@[k] == k as u8,
        decreases 256 - i,
    {
        table.push(i as u8);
        i += 1;
    }
    assert(table@ =~= identity_table());

    let mut last_byte: u8 = 0;
    let mut offset: usize = 0;
    let mut count: usize = 0;
    while count < 256
        invariant
            count <= 256,
            key@.len() > 0,
            offset < key.len(),
            table@.len() == 256,
            ks_state(key@, count as nat) == (KsState {
                table: table@,
                last_byte: last_byte,
                offset: offset as nat,
            }),
        decreases 256 - count,
    {
        let c = ((table[count] as usize + last_byte as usize + key[offset] as usize) % 256) as u8;
        offset += 1;
        if offset >= key.len() {
            offset = 0;
        }
        let at_count = table[count];
        let at_c = table[c as usize];
        table[c as usize] = at_count;
        table[count] = at_c;
        last_byte = c;
        count += 1;
        assert(ks_state(key@, count as nat) == (KsState {
            table: table@,
            last_byte: last_byte,
            offset: offset as nat,
        }));
    }
    Ok(table)
}

} // verus!
