//! Deterministic record addressing.
//!
//! Every record's location is derived from stable seeds alone — a kind tag
//! and the identities that key the record — so any collaborator can
//! reconstruct it bit-for-bit without a directory lookup. The derivations
//! here are injective: distinct keys never collide, and locations of
//! different record kinds are always distinct.

use vstd::prelude::*;

use crate::state::{PoolKey, WagerKey};

verus! {

/// Kind tag of the configuration singleton's location.
pub const TAG_PROTOCOL: u8 = 1;

/// Kind tag of a pool record's location.
pub const TAG_POOL: u8 = 2;

/// Kind tag of a pool vault's location.
pub const TAG_VAULT: u8 = 3;

/// Kind tag of a wager record's location.
pub const TAG_BET: u8 = 4;

/// The eight bytes of `x`, least significant first.
pub open spec fn u64_le_bytes(x: u64) -> Seq<u8> {
    seq![
        (x & 0xff) as u8,
        ((x >> 8) & 0xff) as u8,
        ((x >> 16) & 0xff) as u8,
        ((x >> 24) & 0xff) as u8,
        ((x >> 32) & 0xff) as u8,
        ((x >> 40) & 0xff) as u8,
        ((x >> 48) & 0xff) as u8,
        ((x >> 56) & 0xff) as u8,
    ]
}

/// The location of the configuration singleton.
pub open spec fn protocol_location() -> Seq<u8> {
    seq![TAG_PROTOCOL]
}

/// The location of a pool record.
pub open spec fn pool_location(k: PoolKey) -> Seq<u8> {
    seq![TAG_POOL] + u64_le_bytes(k.creator) + u64_le_bytes(k.pool_id)
}

/// The location of a pool's vault, bound one-to-one to the pool.
pub open spec fn vault_location(k: PoolKey) -> Seq<u8> {
    seq![TAG_VAULT] + u64_le_bytes(k.creator) + u64_le_bytes(k.pool_id)
}

/// The location of a wager record.
pub open spec fn wager_location(k: WagerKey) -> Seq<u8> {
    seq![TAG_BET] + u64_le_bytes(k.pool.creator) + u64_le_bytes(k.pool.pool_id)
        + u64_le_bytes(k.owner) + u64_le_bytes(k.request_id)
}

/// The seeds with which a wager record signs a permission hand-off: its own
/// location extended by the uniqueness salt recorded at creation.
pub open spec fn wager_signing_seeds(k: WagerKey, bump: u8) -> Seq<u8> {
    wager_location(k) + seq![bump]
}

/// Little-endian encoding loses nothing: equal bytes mean equal numbers.
pub proof fn lemma_u64_le_bytes_injective(x: u64, y: u64)
    requires
        u64_le_bytes(x) == u64_le_bytes(y),
    ensures
        x == y,
{
    assert(u64_le_bytes(x)[0] == u64_le_bytes(y)[0]);
    assert(u64_le_bytes(x)[1] == u64_le_bytes(y)[1]);
    assert(u64_le_bytes(x)[2] == u64_le_bytes(y)[2]);
    assert(u64_le_bytes(x)[3] == u64_le_bytes(y)[3]);
    assert(u64_le_bytes(x)[4] == u64_le_bytes(y)[4]);
    assert(u64_le_bytes(x)[5] == u64_le_bytes(y)[5]);
    assert(u64_le_bytes(x)[6] == u64_le_bytes(y)[6]);
    assert(u64_le_bytes(x)[7] == u64_le_bytes(y)[7]);
    assert(x == y) by (bit_vector)
        requires
            (x & 0xff) as u8 == (y & 0xff) as u8,
            ((x >> 8) & 0xff) as u8 == ((y >> 8) & 0xff) as u8,
            ((x >> 16) & 0xff) as u8 == ((y >> 16) & 0xff) as u8,
            ((x >> 24) & 0xff) as u8 == ((y >> 24) & 0xff) as u8,
            ((x >> 32) & 0xff) as u8 == ((y >> 32) & 0xff) as u8,
            ((x >> 40) & 0xff) as u8 == ((y >> 40) & 0xff) as u8,
            ((x >> 48) & 0xff) as u8 == ((y >> 48) & 0xff) as u8,
            ((x >> 56) & 0xff) as u8 == ((y >> 56) & 0xff) as u8,
    ;
}

/// Splitting a concatenation at the same offset gives the same halves.
pub proof fn lemma_concat_parts_eq(a1: Seq<u8>, b1: Seq<u8>, a2: Seq<u8>, b2: Seq<u8>)
    requires
        a1 + b1 == a2 + b2,
        a1.len() == a2.len(),
    ensures
        a1 == a2,
        b1 == b2,
{
    assert forall|i: int| 0 <= i < a1.len() implies a1[i] == a2[i] by {
        assert((a1 + b1)[i] == a1[i]);
        assert((a2 + b2)[i] == a2[i]);
    }
    assert(b1.len() == b2.len()) by {
        let lhs = a1 + b1;
        let rhs = a2 + b2;
        assert(lhs.len() == a1.len() + b1.len());
        assert(rhs.len() == a2.len() + b2.len());
        assert(lhs == rhs);
    }
    assert forall|j: int| 0 <= j < b1.len() implies b1[j] == b2[j] by {
        assert((a1 + b1)[a1.len() + j] == b1[j]);
        assert((a2 + b2)[a2.len() + j] == b2[j]);
    }
    assert(a1 =~= a2);
    assert(b1 =~= b2);
}

/// Distinct pool keys derive distinct pool locations.
pub proof fn lemma_pool_location_injective(k1: PoolKey, k2: PoolKey)
    requires
        pool_location(k1) == pool_location(k2),
    ensures
        k1 == k2,
{
    lemma_concat_parts_eq(
        seq![TAG_POOL] + u64_le_bytes(k1.creator),
        u64_le_bytes(k1.pool_id),
        seq![TAG_POOL] + u64_le_bytes(k2.creator),
        u64_le_bytes(k2.pool_id),
    );
    lemma_concat_parts_eq(
        seq![TAG_POOL],
        u64_le_bytes(k1.creator),
        seq![TAG_POOL],
        u64_le_bytes(k2.creator),
    );
    lemma_u64_le_bytes_injective(k1.creator, k2.creator);
    lemma_u64_le_bytes_injective(k1.pool_id, k2.pool_id);
}

/// Distinct wager keys derive distinct wager locations.
pub proof fn lemma_wager_location_injective(k1: WagerKey, k2: WagerKey)
    requires
        wager_location(k1) == wager_location(k2),
    ensures
        k1 == k2,
{
    let head1 = seq![TAG_BET] + u64_le_bytes(k1.pool.creator) + u64_le_bytes(k1.pool.pool_id)
        + u64_le_bytes(k1.owner);
    let head2 = seq![TAG_BET] + u64_le_bytes(k2.pool.creator) + u64_le_bytes(k2.pool.pool_id)
        + u64_le_bytes(k2.owner);
    lemma_concat_parts_eq(head1, u64_le_bytes(k1.request_id), head2, u64_le_bytes(k2.request_id));
    lemma_concat_parts_eq(
        seq![TAG_BET] + u64_le_bytes(k1.pool.creator) + u64_le_bytes(k1.pool.pool_id),
        u64_le_bytes(k1.owner),
        seq![TAG_BET] + u64_le_bytes(k2.pool.creator) + u64_le_bytes(k2.pool.pool_id),
        u64_le_bytes(k2.owner),
    );
    lemma_concat_parts_eq(
        seq![TAG_BET] + u64_le_bytes(k1.pool.creator),
        u64_le_bytes(k1.pool.pool_id),
        seq![TAG_BET] + u64_le_bytes(k2.pool.creator),
        u64_le_bytes(k2.pool.pool_id),
    );
    lemma_concat_parts_eq(
        seq![TAG_BET],
        u64_le_bytes(k1.pool.creator),
        seq![TAG_BET],
        u64_le_bytes(k2.pool.creator),
    );
    lemma_u64_le_bytes_injective(k1.pool.creator, k2.pool.creator);
    lemma_u64_le_bytes_injective(k1.pool.pool_id, k2.pool.pool_id);
    lemma_u64_le_bytes_injective(k1.owner, k2.owner);
    lemma_u64_le_bytes_injective(k1.request_id, k2.request_id);
}

/// A pool location is never a wager location: the kinds cannot collide.
pub proof fn lemma_location_kinds_distinct(p: PoolKey, w: WagerKey)
    ensures
        pool_location(p) != wager_location(w),
{
    assert(pool_location(p).len() == 17);
    assert(wager_location(w).len() == 33);
}

/// Builds the eight little-endian bytes of `x`.
pub fn u64_le_vec(x: u64) -> (r: Vec<u8>)
    ensures
        r@ == u64_le_bytes(x),
{
    proof {
        assert((x & 0xff) <= 0xff && ((x >> 8) & 0xff) <= 0xff && ((x >> 16) & 0xff) <= 0xff && ((x
            >> 24) & 0xff) <= 0xff && ((x >> 32) & 0xff) <= 0xff && ((x >> 40) & 0xff) <= 0xff && ((
        x >> 48) & 0xff) <= 0xff && ((x >> 56) & 0xff) <= 0xff) by (bit_vector);
    }
    let mut r: Vec<u8> = Vec::new();
    r.push((x & 0xff) as u8);
    r.push(((x >> 8) & 0xff) as u8);
    r.push(((x >> 16) & 0xff) as u8);
    r.push(((x >> 24) & 0xff) as u8);
    r.push(((x >> 32) & 0xff) as u8);
    r.push(((x >> 40) & 0xff) as u8);
    r.push(((x >> 48) & 0xff) as u8);
    r.push(((x >> 56) & 0xff) as u8);
    proof {
        assert(r@ =~= u64_le_bytes(x));
    }
    r
}

/// Builds a pool record's location.
pub fn pool_location_vec(k: PoolKey) -> (r: Vec<u8>)
    ensures
        r@ == pool_location(k),
{
    let mut r: Vec<u8> = Vec::new();
    r.push(TAG_POOL);
    let mut creator = u64_le_vec(k.creator);
    r.append(&mut creator);
    let mut pool_id = u64_le_vec(k.pool_id);
    r.append(&mut pool_id);
    proof {
        assert(r@ =~= pool_location(k));
    }
    r
}

/// Builds a pool vault's location.
pub fn vault_location_vec(k: PoolKey) -> (r: Vec<u8>)
    ensures
        r@ == vault_location(k),
{
    let mut r: Vec<u8> = Vec::new();
    r.push(TAG_VAULT);
    let mut creator = u64_le_vec(k.creator);
    r.append(&mut creator);
    let mut pool_id = u64_le_vec(k.pool_id);
    r.append(&mut pool_id);
    proof {
        assert(r@ =~= vault_location(k));
    }
    r
}

/// Builds a wager record's location.
pub fn wager_location_vec(k: WagerKey) -> (r: Vec<u8>)
    ensures
        r@ == wager_location(k),
{
    let mut r: Vec<u8> = Vec::new();
    r.push(TAG_BET);
    let mut creator = u64_le_vec(k.pool.creator);
    r.append(&mut creator);
    let mut pool_id = u64_le_vec(k.pool.pool_id);
    r.append(&mut pool_id);
    let mut owner = u64_le_vec(k.owner);
    r.append(&mut owner);
    let mut request_id = u64_le_vec(k.request_id);
    r.append(&mut request_id);
    proof {
        assert(r@ =~= wager_location(k));
    }
    r
}

/// Builds the signing seeds of a wager's permission hand-off.
pub fn wager_signing_seeds_vec(k: WagerKey, bump: u8) -> (r: Vec<u8>)
    ensures
        r@ == wager_signing_seeds(k, bump),
{
    let mut r = wager_location_vec(k);
    r.push(bump);
    proof {
        assert(r@ =~= wager_signing_seeds(k, bump));
    }
    r
}

/// Compares two byte strings by value.
pub fn bytes_eq(a: &Vec<u8>, b: &Vec<u8>) -> (r: bool)
    ensures
        r == (a@ == b@),
{
    if a.len() != b.len() {
        return false;
    }
    let mut i: usize = 0;
    while i < a.len()
        invariant
            0 <= i <= a@.len(),
            a@.len() == b@.len(),
            forall|j: int| 0 <= j < i ==> a@[j] == b@[j],
        decreases a@.len() - i,
    {
        if a[i] != b[i] {
            return false;
        }
        i = i + 1;
    }
    proof {
        assert(a@ =~= b@);
    }
    true
}

} // verus!
