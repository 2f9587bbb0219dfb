//! Magnitude of a heap-allocated big integer, stored as base-2^64 limbs,
//! least significant limb first. A stored magnitude is kept normalized:
//! at least one limb, and the most significant limb nonzero.

use vstd::prelude::*;

verus! {

/// Weight of one limb: each limb carries 64 bits of the magnitude.
pub open spec fn limb_base() -> nat {
    0x10000000000000000nat
}

/// The magnitude a limb sequence denotes.
pub open spec fn limbs_value(s: Seq<u64>) -> nat
    decreases s.len(),
{
    if s.len() == 0 {
        0
    } else {
        s[0] as nat + limb_base() * limbs_value(s.skip(1))
    }
}

/// Normal form: nonempty, and no leading zero limb, so every stored
/// magnitude has exactly one representation and is at least 1.
pub open spec fn limbs_wf(s: Seq<u64>) -> bool {
    s.len() >= 1 && s.last() != 0
}

/// A one-limb sequence denotes exactly that limb.
pub proof fn lemma_limbs_value_single(s: Seq<u64>)
    requires
        s.len() == 1,
    ensures
        limbs_value(s) == s[0],
{
    assert(s.skip(1).len() == 0);
    assert(limbs_value(s.skip(1)) == 0);
}

/// A normalized magnitude is nonzero.
pub proof fn lemma_limbs_value_pos(s: Seq<u64>)
    requires
        limbs_wf(s),
    ensures
        limbs_value(s) >= 1,
    decreases s.len(),
{
    if s.len() == 1 {
        lemma_limbs_value_single(s);
    } else {
        let t = s.skip(1);
        assert(t.last() == s.last());
        lemma_limbs_value_pos(t);
        assert(limb_base() * limbs_value(t) >= limb_base() * 1nat) by (nonlinear_arith)
            requires
                limbs_value(t) >= 1,
        ;
    }
}

/// A normalized magnitude of two or more limbs exceeds every 64-bit value.
pub proof fn lemma_limbs_value_ge_base(s: Seq<u64>)
    requires
        limbs_wf(s),
        s.len() >= 2,
    ensures
        limbs_value(s) >= limb_base(),
{
    let t = s.skip(1);
    assert(t.last() == s.last());
    lemma_limbs_value_pos(t);
    assert(limb_base() * limbs_value(t) >= limb_base() * 1nat) by (nonlinear_arith)
        requires
            limbs_value(t) >= 1,
    ;
}

/// An exact copy of a limb vector.
pub fn copy_limbs(src: &Vec<u64>) -> (r: Vec<u64>)
    ensures
        r@ == src@,
{
    let mut r: Vec<u64> = Vec::new();
    let mut i: usize = 0;
    while i < src.len()
        invariant
            i <= src.len(),
            r@ == src@.take(i as int),
        decreases src.len() - i,
    {
        r.push(src[i]);
        assert(r@ =~= src@.take(i as int + 1));
        i = i + 1;
    }
    assert(r@ =~= src@);
    r
}

} // verus!
