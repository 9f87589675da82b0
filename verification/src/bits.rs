//! Spec-level bit counting and bit enumeration for 64-bit masks, with the
//! executable counterparts used by the board engine.

use vstd::prelude::*;

verus! {

/// True iff `m` has exactly one bit set.
pub open spec fn single_bit(m: u64) -> bool {
    exists|k: u64| k < 64 && m == (1u64 << k)
}

/// Number of set bits of `m` among the bit indices below `n` (for `n <= 64`).
pub open spec fn popbits(m: u64, n: nat) -> nat
    decreases n,
{
    if n == 0 {
        0
    } else {
        popbits(m, (n - 1) as nat) + if m & (1u64 << ((n - 1) as u64)) != 0 {
            1nat
        } else {
            0nat
        }
    }
}

/// Number of set bits of `m`.
pub open spec fn pop64(m: u64) -> nat {
    popbits(m, 64)
}

/// The set bits of `m` with index below `n`, as single-bit masks in
/// increasing bit-index order.
pub open spec fn bits_below(m: u64, n: nat) -> Seq<u64>
    decreases n,
{
    if n == 0 {
        Seq::empty()
    } else {
        let rest = bits_below(m, (n - 1) as nat);
        if m & (1u64 << ((n - 1) as u64)) != 0 {
            rest.push(1u64 << ((n - 1) as u64))
        } else {
            rest
        }
    }
}

/// All set bits of `m`, as single-bit masks in increasing bit-index order.
pub open spec fn bit_masks(m: u64) -> Seq<u64> {
    bits_below(m, 64)
}

pub proof fn lemma_popbits_le(m: u64, n: nat)
    ensures
        popbits(m, n) <= n,
    decreases n,
{
    if n > 0 {
        lemma_popbits_le(m, (n - 1) as nat);
    }
}

pub proof fn lemma_bits_below_len(m: u64, n: nat)
    ensures
        bits_below(m, n).len() == popbits(m, n),
    decreases n,
{
    if n > 0 {
        lemma_bits_below_len(m, (n - 1) as nat);
    }
}

/// Every mask enumerated from `m` is a single set bit of `m`.
pub proof fn lemma_bits_below_elems(m: u64, n: nat)
    requires
        n <= 64,
    ensures
        forall|j: int|
            0 <= j < bits_below(m, n).len() ==> single_bit(#[trigger] bits_below(m, n)[j])
                && bits_below(m, n)[j] & m == bits_below(m, n)[j] && m & bits_below(m, n)[j] != 0,
    decreases n,
{
    if n > 0 {
        lemma_bits_below_elems(m, (n - 1) as nat);
        let k: u64 = (n - 1) as u64;
        let rest = bits_below(m, (n - 1) as nat);
        let cur = bits_below(m, n);
        if m & (1u64 << k) != 0 {
            assert(k < 64 && m & (1u64 << k) != 0 ==> (1u64 << k) & m == (1u64 << k)
                && m & (1u64 << k) != 0) by (bit_vector);
            assert(single_bit(1u64 << k));
            assert forall|j: int| 0 <= j < cur.len() implies single_bit(#[trigger] cur[j])
                && cur[j] & m == cur[j] && m & cur[j] != 0 by {
                if j < rest.len() {
                    assert(cur[j] == rest[j]);
                } else {
                    assert(cur[j] == 1u64 << k);
                }
            }
        } else {
            assert(cur == rest);
        }
    }
}

proof fn lemma_popbits_zero_mask(m: u64, n: nat)
    requires
        n <= 64,
        popbits(m, n) == 0,
    ensures
        n < 64 ==> m & (((1u64 << (n as u64)) - 1) as u64) == 0,
        n == 64 ==> m == 0,
    decreases n,
{
    if n > 0 {
        lemma_popbits_zero_mask(m, (n - 1) as nat);
        let k: u64 = (n - 1) as u64;
        if k < 63 {
            assert(k < 63 && m & (((1u64 << k) - 1) as u64) == 0 && m & (1u64 << k) == 0
                ==> m & (((1u64 << ((k + 1) as u64)) - 1) as u64) == 0) by (bit_vector);
        } else {
            assert(m & (((1u64 << 63u64) - 1) as u64) == 0 && m & (1u64 << 63u64) == 0
                ==> m == 0) by (bit_vector);
        }
    } else {
        assert(m & (((1u64 << 0u64) - 1) as u64) == 0) by (bit_vector);
    }
}

proof fn lemma_popbits_of_zero(n: nat)
    requires
        n <= 64,
    ensures
        popbits(0u64, n) == 0,
    decreases n,
{
    if n > 0 {
        lemma_popbits_of_zero((n - 1) as nat);
        let k: u64 = (n - 1) as u64;
        assert(0u64 & (1u64 << k) == 0) by (bit_vector);
    }
}

/// A mask has no set bits exactly when it is zero.
pub proof fn lemma_pop64_zero(m: u64)
    ensures
        pop64(m) == 0 <==> m == 0,
{
    if m == 0 {
        lemma_popbits_of_zero(64);
    }
    if pop64(m) == 0 {
        lemma_popbits_zero_mask(m, 64);
    }
}

proof fn lemma_popbits_disjoint(a: u64, b: u64, n: nat)
    requires
        a & b == 0,
        n <= 64,
    ensures
        popbits(a | b, n) == popbits(a, n) + popbits(b, n),
    decreases n,
{
    if n > 0 {
        lemma_popbits_disjoint(a, b, (n - 1) as nat);
        let k: u64 = (n - 1) as u64;
        assert(a & b == 0 && k < 64 ==> (((a | b) & (1u64 << k) != 0) <==> (a & (1u64 << k) != 0)
            || (b & (1u64 << k) != 0)) && !(a & (1u64 << k) != 0 && b & (1u64 << k) != 0))
            by (bit_vector);
    }
}

/// Adding set bits disjoint from `a` strictly increases the bit count.
pub proof fn lemma_pop64_grow(a: u64, b: u64)
    requires
        a & b == 0,
        b != 0,
    ensures
        pop64(a | b) == pop64(a) + pop64(b),
        pop64(a | b) > pop64(a),
{
    lemma_popbits_disjoint(a, b, 64);
    lemma_pop64_zero(b);
}

/// Counts the set bits of `m`.
pub fn popcount(m: u64) -> (r: u32)
    ensures
        r == pop64(m),
{
    let mut count: u32 = 0;
    let mut i: u64 = 0;
    while i < 64
        invariant
            i <= 64,
            count == popbits(m, i as nat),
            count <= i,
        decreases 64 - i,
    {
        if m & (1u64 << i) != 0 {
            count = count + 1;
        }
        i = i + 1;
    }
    count
}

/// Decomposes `m` into its single-bit masks, in increasing bit-index order.
pub fn mask_to_moves(m: u64) -> (r: Vec<u64>)
    ensures
        r@ == bit_masks(m),
        r@.len() == pop64(m),
{
    let mut v: Vec<u64> = Vec::new();
    let mut i: u64 = 0;
    while i < 64
        invariant
            i <= 64,
            v@ == bits_below(m, i as nat),
        decreases 64 - i,
    {
        if m & (1u64 << i) != 0 {
            v.push(1u64 << i);
        }
        i = i + 1;
    }
    proof {
        lemma_bits_below_len(m, 64);
    }
    v
}

} // verus!
