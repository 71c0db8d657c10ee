//! Rarity: the exact product of the weights of the selected traits.
//!
//! A product of many weights outgrows every machine integer, so it is kept in
//! limbs of 32 bits, the least significant first. The most significant limb
//! is never zero, so that one number is written in one way.

use vstd::prelude::*;

verus! {

/// The base of a limb.
pub open spec fn limb_base() -> nat {
    0x1_0000_0000
}

/// What a unit at limb `i` is worth.
pub open spec fn place(i: nat) -> nat
    decreases i,
{
    if i == 0 {
        1
    } else {
        limb_base() * place((i - 1) as nat)
    }
}

/// The number that `limbs` write, the least significant limb first.
pub open spec fn limbs_value(limbs: Seq<u32>) -> nat
    decreases limbs.len(),
{
    if limbs.len() == 0 {
        0
    } else {
        limbs_value(limbs.drop_last()) + limbs.last() as nat * place((limbs.len() - 1) as nat)
    }
}

/// Whether `limbs` end in a limb that is not zero, if they have any.
pub open spec fn canonical(limbs: Seq<u32>) -> bool {
    limbs.len() == 0 || limbs.last() != 0
}

/// A number is less than what a unit beyond its limbs is worth.
pub proof fn lemma_value_below_place(limbs: Seq<u32>)
    ensures
        limbs_value(limbs) < place(limbs.len()),
    decreases limbs.len(),
{
    if limbs.len() > 0 {
        lemma_value_below_place(limbs.drop_last());
        let p = place((limbs.len() - 1) as nat);
        assert(place(limbs.len()) == limb_base() * p);
        assert(limbs_value(limbs.drop_last()) + limbs.last() as nat * p < limb_base() * p)
            by (nonlinear_arith)
            requires
                limbs_value(limbs.drop_last()) < p,
                limbs.last() as nat <= limb_base() - 1,
        ;
    }
}

/// A number whose last limb is not zero is at least what a unit at that limb
/// is worth.
pub proof fn lemma_value_at_least_place(limbs: Seq<u32>)
    requires
        limbs.len() > 0,
        limbs.last() != 0,
    ensures
        limbs_value(limbs) >= place((limbs.len() - 1) as nat),
{
    let p = place((limbs.len() - 1) as nat);
    assert(limbs.last() as nat * p >= p) by (nonlinear_arith)
        requires
            limbs.last() as nat >= 1,
    ;
}

/// What a unit is worth grows with its limb.
pub proof fn lemma_place_grows(i: nat, j: nat)
    requires
        i <= j,
    ensures
        0 < place(i) <= place(j),
    decreases j,
{
    if i < j {
        lemma_place_grows(i, (j - 1) as nat);
        let p = place((j - 1) as nat);
        assert(limb_base() * p >= p) by (nonlinear_arith)
            requires
                p > 0,
        ;
    } else if j > 0 {
        lemma_place_grows(0, (j - 1) as nat);
        let p = place((j - 1) as nat);
        assert(limb_base() * p > 0) by (nonlinear_arith)
            requires
                p > 0,
        ;
    }
}

/// As many limbs that write the same number are the same limbs.
pub proof fn lemma_same_length_same_number(a: Seq<u32>, b: Seq<u32>)
    requires
        a.len() == b.len(),
        limbs_value(a) == limbs_value(b),
    ensures
        a == b,
    decreases a.len(),
{
    if a.len() > 0 {
        let p = place((a.len() - 1) as nat);
        lemma_value_below_place(a.drop_last());
        lemma_value_below_place(b.drop_last());
        assert(a.last() == b.last()) by (nonlinear_arith)
            requires
                limbs_value(a.drop_last()) + a.last() as nat * p == limbs_value(b.drop_last())
                    + b.last() as nat * p,
                limbs_value(a.drop_last()) < p,
                limbs_value(b.drop_last()) < p,
        ;
        lemma_same_length_same_number(a.drop_last(), b.drop_last());
        assert(a =~= a.drop_last().push(a.last()));
        assert(b =~= b.drop_last().push(b.last()));
    } else {
        assert(a =~= b);
    }
}

/// One number is written in one way: limbs that do not end in zero and write
/// the same number are the same.
pub proof fn lemma_one_number_one_writing(a: Seq<u32>, b: Seq<u32>)
    requires
        canonical(a),
        canonical(b),
        limbs_value(a) == limbs_value(b),
    ensures
        a == b,
{
    lemma_value_below_place(a);
    lemma_value_below_place(b);
    if a.len() < b.len() {
        lemma_value_at_least_place(b);
        lemma_place_grows(a.len(), (b.len() - 1) as nat);
    } else if b.len() < a.len() {
        lemma_value_at_least_place(a);
        lemma_place_grows(b.len(), (a.len() - 1) as nat);
    } else {
        lemma_same_length_same_number(a, b);
    }
}

/// A natural number of any size.
#[derive(Debug, PartialEq, Eq)]
pub struct Rarity {
    limbs: Vec<u32>,
}

impl Clone for Rarity {
    fn clone(&self) -> (r: Rarity)
        ensures
            r@ == self@,
    {
        proof {
            use_type_invariant(self);
        }
        let limbs = self.limbs.clone();
        assert(limbs@ =~= self.limbs@);
        Rarity { limbs }
    }
}

impl View for Rarity {
    type V = nat;

    closed spec fn view(&self) -> nat {
        limbs_value(self.limbs@)
    }
}

impl Rarity {
    #[verifier::type_invariant]
    spec fn ends_in_a_limb(self) -> bool {
        canonical(self.limbs@)
    }

    /// The limbs of the number, the least significant first.
    pub closed spec fn spec_limbs(&self) -> Seq<u32> {
        self.limbs@
    }

    /// The number is what its limbs write.
    pub proof fn lemma_view_is_limbs_value(&self)
        ensures
            self@ == limbs_value(self.spec_limbs()),
    {
    }

    /// The empty product.
    pub fn one() -> (r: Rarity)
        ensures
            r@ == 1,
    {
        let mut limbs: Vec<u32> = Vec::new();
        limbs.push(1);
        proof {
            assert(limbs@.drop_last() =~= Seq::<u32>::empty());
            assert(limbs_value(limbs@.drop_last()) == 0);
        }
        Rarity { limbs }
    }

    /// The limbs of the number, the least significant first. The last of
    /// them is not zero; zero has no limbs.
    pub fn limbs(&self) -> (r: &Vec<u32>)
        ensures
            r@ == self.spec_limbs(),
            canonical(r@),
    {
        proof {
            use_type_invariant(self);
        }
        &self.limbs
    }

    /// Whether two numbers are the same.
    #[verifier::loop_isolation(false)]
    pub fn same(&self, other: &Rarity) -> (r: bool)
        ensures
            r == (self@ == other@),
    {
        proof {
            use_type_invariant(self);
            use_type_invariant(other);
            if self@ == other@ {
                lemma_one_number_one_writing(self.limbs@, other.limbs@);
            }
        }
        if self.limbs.len() != other.limbs.len() {
            return false;
        }
        let mut i: usize = 0;
        while i < self.limbs.len()
            invariant
                i <= self.limbs.len(),
                self.limbs.len() == other.limbs.len(),
                forall|j: int| 0 <= j < i ==> self.limbs@[j] == other.limbs@[j],
            decreases self.limbs.len() - i,
        {
            if self.limbs[i] != other.limbs[i] {
                return false;
            }
            i += 1;
        }
        assert(self.limbs@ =~= other.limbs@);
        true
    }

    /// The number multiplied by `weight`.
    pub fn times(&self, weight: u64) -> (r: Rarity)
        ensures
            r@ == self@ * weight,
    {
        let n = self.limbs.len();
        let mut out: Vec<u32> = Vec::new();
        let mut carry: u64 = 0;
        let mut i: usize = 0;
        assert(self.limbs@.take(0) =~= Seq::<u32>::empty());
        assert(0 * place(0) == 0 && 0 * weight as nat == 0) by (nonlinear_arith);
        while i < n
            invariant
                i <= n,
                n == self.limbs.len(),
                out.len() == i,
                limbs_value(out@) + carry as nat * place(i as nat) == limbs_value(
                    self.limbs@.take(i as int),
                ) * weight as nat,
            decreases n - i,
        {
            let limb = self.limbs[i];
            assert(limb as nat * weight as nat + carry as nat <= 0xffff_ffff * 0xffff_ffff_ffff_ffff
                + 0xffff_ffff_ffff_ffff) by (nonlinear_arith)
                requires
                    limb <= 0xffff_ffff,
                    weight <= 0xffff_ffff_ffff_ffff,
                    carry <= 0xffff_ffff_ffff_ffff,
            ;
            let acc: u128 = (limb as u128) * (weight as u128) + (carry as u128);
            let low: u32 = (acc % 0x1_0000_0000) as u32;
            let high: u64 = (acc / 0x1_0000_0000) as u64;
            proof {
                let before = self.limbs@.take(i as int);
                let next = self.limbs@.take(i + 1);
                assert(next.drop_last() =~= before);
                assert(next.last() == limb);
                assert(out@.push(low).drop_last() =~= out@);
                let p = place(i as nat);
                assert(place((i + 1) as nat) == limb_base() * p);
                assert(acc as nat == low as nat + limb_base() * high as nat);
                assert(limbs_value(out@) + low as nat * p + high as nat * (limb_base() * p) == (
                limbs_value(before) + limb as nat * p) * weight as nat) by (nonlinear_arith)
                    requires
                        limbs_value(out@) + carry as nat * p == limbs_value(before) * weight as nat,
                        limb as nat * weight as nat + carry as nat == low as nat + limb_base()
                            * high as nat,
                ;
            }
            out.push(low);
            carry = high;
            i += 1;
        }
        assert(self.limbs@.take(n as int) =~= self.limbs@);
        let ghost p = place(n as nat);
        let ghost done = out@;
        if carry != 0 {
            let low: u32 = (carry % 0x1_0000_0000) as u32;
            let high: u32 = (carry / 0x1_0000_0000) as u32;
            proof {
                assert(place((n + 1) as nat) == limb_base() * p);
                assert(done.push(low).drop_last() =~= done);
                assert(done.push(low).push(high).drop_last() =~= done.push(low));
                assert(low as nat * p + high as nat * (limb_base() * p) == carry as nat * p)
                    by (nonlinear_arith)
                    requires
                        carry as nat == low as nat + limb_base() * high as nat,
                ;
                assert(high == 0 ==> high as nat * (limb_base() * p) == 0) by (nonlinear_arith);
                assert(done.push(low).last() == low);
                assert(done.push(low).push(high).last() == high);
                assert(limbs_value(done.push(low)) == limbs_value(done) + low as nat * p);
                assert(limbs_value(done.push(low).push(high)) == limbs_value(done.push(low))
                    + high as nat * (limb_base() * p));
            }
            out.push(low);
            if high != 0 {
                out.push(high);
            }
        } else {
            assert(carry as nat * p == 0) by (nonlinear_arith)
                requires
                    carry == 0,
            ;
        }
        while out.len() > 0 && out[out.len() - 1] == 0
            invariant
                limbs_value(out@) == limbs_value(self.limbs@) * weight as nat,
            decreases out.len(),
        {
            proof {
                assert(out@.subrange(0, out@.len() - 1) =~= out@.drop_last());
                assert(0 * place((out@.len() - 1) as nat) == 0) by (nonlinear_arith);
            }
            out.pop();
        }
        Rarity { limbs: out }
    }
}

} // verus!
