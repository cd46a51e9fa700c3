//! Arbitrary-precision non-negative token amounts.

use vstd::prelude::*;

verus! {

/// The base of one limb.
pub open spec fn limb_base() -> nat {
    0x1_0000_0000_0000_0000nat
}

/// The number that little-endian base-2^64 limbs stand for.
pub open spec fn limbs_value(limbs: Seq<u64>) -> nat
    decreases limbs.len(),
{
    if limbs.len() == 0 {
        0
    } else {
        limbs[0] as nat + limb_base() * limbs_value(limbs.drop_first())
    }
}

/// Limbs in canonical form: no most significant limb of zero.
pub open spec fn limbs_canonical(limbs: Seq<u64>) -> bool {
    limbs.len() == 0 || limbs.last() != 0
}

/// A zero limb on top leaves the value as it is.
proof fn lemma_value_ignores_top_zero(limbs: Seq<u64>)
    requires
        limbs.len() > 0,
        limbs.last() == 0,
    ensures
        limbs_value(limbs) == limbs_value(limbs.drop_last()),
    decreases limbs.len(),
{
    if limbs.len() == 1 {
        assert(limbs.drop_last() =~= Seq::<u64>::empty());
        assert(limbs.drop_first() =~= Seq::<u64>::empty());
    } else {
        let rest = limbs.drop_first();
        lemma_value_ignores_top_zero(rest);
        assert(rest.drop_last() =~= limbs.drop_last().drop_first());
    }
}

/// A non-negative amount of tokens of any size, held as little-endian
/// base-2^64 limbs in canonical form.
#[derive(Clone, Debug, PartialEq, Eq)]
pub struct Amount {
    limbs: Vec<u64>,
}

impl View for Amount {
    type V = nat;

    closed spec fn view(&self) -> nat {
        limbs_value(self.limbs@)
    }
}

impl Amount {
    /// The limbs are in canonical form.
    pub closed spec fn wf(&self) -> bool {
        limbs_canonical(self.limbs@)
    }

    /// The amount zero.
    pub fn zero() -> (r: Amount)
        ensures
            r@ == 0,
            r.wf(),
    {
        Amount { limbs: Vec::new() }
    }

    /// The amount `n`.
    pub fn from_u64(n: u64) -> (r: Amount)
        ensures
            r@ == n as nat,
            r.wf(),
    {
        if n == 0 {
            Amount::zero()
        } else {
            let mut limbs: Vec<u64> = Vec::new();
            limbs.push(n);
            proof {
                assert(limbs@.drop_first() =~= Seq::<u64>::empty());
                assert(limbs_value(limbs@.drop_first()) == 0);
                assert(limbs_value(limbs@) == n as nat);
            }
            Amount { limbs }
        }
    }

    /// The amount that little-endian base-2^64 `limbs` stand for; most
    /// significant zero limbs are dropped.
    pub fn from_limbs(limbs: Vec<u64>) -> (r: Amount)
        ensures
            r@ == limbs_value(limbs@),
            r.wf(),
    {
        let mut limbs = limbs;
        let ghost original = limbs@;
        while limbs.len() > 0 && limbs[limbs.len() - 1] == 0
            invariant
                limbs_value(limbs@) == limbs_value(original),
            decreases limbs.len(),
        {
            proof {
                lemma_value_ignores_top_zero(limbs@);
            }
            limbs.pop();
        }
        Amount { limbs }
    }

    /// The limbs, least significant first, with no most significant zero.
    pub fn limbs(&self) -> (r: &Vec<u64>)
        ensures
            limbs_value(r@) == self@,
            self.wf() ==> limbs_canonical(r@),
    {
        &self.limbs
    }
}

} // verus!
