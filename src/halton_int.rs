//! Integer van der Corput and Halton low-discrepancy sequences.
use vstd::arithmetic::div_mod::{
    lemma_basic_div, lemma_div_decreases, lemma_div_multiples_vanish, lemma_mod_pos_bound,
};
use vstd::arithmetic::mul::lemma_mul_inequality;
use vstd::arithmetic::power::{lemma_pow_increases, lemma_pow_positive, pow};
use vstd::prelude::*;

verus! {

/// The base-`base` digits of `k` mirrored about the radix point and scaled by
/// `base^e`: the lowest digit is weighted `base^(e-1)`, the next `base^(e-2)`,
/// and digits past the `e`-th are dropped.
pub open spec fn vdc_spec(k: nat, base: nat, e: nat) -> nat
    decreases e,
{
    if k == 0 || base < 2 || e == 0 {
        0
    } else {
        (k % base) * (pow(base as int, (e - 1) as nat) as nat) + vdc_spec(
            k / base,
            base,
            (e - 1) as nat,
        )
    }
}

/// The mirrored digits stay below the scale `base^e`.
pub proof fn lemma_vdc_below_scale(k: nat, base: nat, e: nat)
    requires
        base >= 2,
    ensures
        vdc_spec(k, base, e) < pow(base as int, e),
    decreases e,
{
    reveal(pow);
    lemma_pow_positive(base as int, e);
    if k != 0 && e != 0 {
        let p = pow(base as int, (e - 1) as nat);
        lemma_pow_positive(base as int, (e - 1) as nat);
        lemma_vdc_below_scale(k / base, base, (e - 1) as nat);
        lemma_mod_pos_bound(k as int, base as int);
        lemma_mul_inequality((k % base) as int, (base - 1) as int, p);
        assert(pow(base as int, e) == base * p);
        assert((base - 1) * p + p == base * p) by (nonlinear_arith);
    }
}

/// `base^scale`, the weight that puts the mirrored digits in the integers.
fn pow_usize(base: usize, scale: u32) -> (r: usize)
    requires
        base >= 1,
        pow(base as int, scale as nat) <= usize::MAX,
    ensures
        r == pow(base as int, scale as nat),
{
    let mut p: usize = 1;
    let mut i: u32 = 0;
    proof {
        reveal(pow);
    }
    while i < scale
        invariant
            base >= 1,
            i <= scale,
            p == pow(base as int, i as nat),
            pow(base as int, scale as nat) <= usize::MAX,
        decreases scale - i,
    {
        proof {
            reveal(pow);
            lemma_pow_increases(base as nat, (i + 1) as nat, scale as nat);
            assert(pow(base as int, (i + 1) as nat) == base * pow(base as int, i as nat));
        }
        p = p * base;
        i = i + 1;
    }
    p
}

/// The `k`-th van der Corput number in base `base`, scaled by `base^scale`.
fn vdc(k: usize, base: usize, scale: u32) -> (r: usize)
    requires
        base >= 2,
        pow(base as int, scale as nat) <= usize::MAX,
    ensures
        r == vdc_spec(k as nat, base as nat, scale as nat),
{
    let ghost total = vdc_spec(k as nat, base as nat, scale as nat);
    let ghost mut e: nat = scale as nat;
    proof {
        reveal(pow);
        lemma_vdc_below_scale(k as nat, base as nat, scale as nat);
    }
    let mut vdc: usize = 0;
    let mut factor: usize = pow_usize(base, scale);
    let mut k: usize = k;
    while k != 0
        invariant
            base >= 2,
            vdc + vdc_spec(k as nat, base as nat, e) == total,
            total <= usize::MAX,
            e > 0 ==> factor == pow(base as int, e),
            e == 0 ==> factor <= 1,
        decreases k,
    {
        proof {
            reveal(pow);
            if e > 0 {
                assert(pow(base as int, e) == base * pow(base as int, (e - 1) as nat));
                lemma_div_multiples_vanish(pow(base as int, (e - 1) as nat), base as int);
            } else {
                lemma_basic_div(factor as int, base as int);
            }
            lemma_div_decreases(k as int, base as int);
        }
        factor = factor / base;
        let remainder = k % base;
        proof {
            lemma_mod_pos_bound(k as int, base as int);
            if e > 0 {
                lemma_pow_positive(base as int, (e - 1) as nat);
                assert(factor == pow(base as int, (e - 1) as nat));
                assert(vdc_spec(k as nat, base as nat, e) == remainder * factor + vdc_spec(
                    (k / base) as nat,
                    base as nat,
                    (e - 1) as nat,
                ));
                e = (e - 1) as nat;
            } else {
                assert(factor == 0);
                assert(remainder * factor == 0);
            }
            assert(remainder * factor >= 0) by (nonlinear_arith)
                requires
                    remainder >= 0,
                    factor >= 0,
            ;
        }
        k = k / base;
        vdc = vdc + remainder * factor;
    }
    vdc
}

/// A van der Corput sequence generator.
pub struct VdCorput {
    count: usize,
    base: usize,
    scale: u32,
}

impl VdCorput {
    /// How many numbers have been drawn since the last seed.
    pub closed spec fn spec_count(&self) -> nat {
        self.count as nat
    }

    pub closed spec fn spec_base(&self) -> nat {
        self.base as nat
    }

    pub closed spec fn spec_scale(&self) -> nat {
        self.scale as nat
    }

    /// The base is at least two and `base^scale` fits in a `usize`.
    pub open spec fn wf(&self) -> bool {
        self.spec_base() >= 2 && pow(self.spec_base() as int, self.spec_scale()) <= usize::MAX
    }

    pub fn new(base: usize, scale: u32) -> (r: Self)
        requires
            base >= 2,
            pow(base as int, scale as nat) <= usize::MAX,
        ensures
            r.wf(),
            r.spec_count() == 0,
            r.spec_base() == base,
            r.spec_scale() == scale,
    {
        VdCorput { count: 0, base, scale }
    }

    /// Advances the count and returns the next number of the sequence.
    pub fn pop(&mut self) -> (r: usize)
        requires
            old(self).wf(),
            old(self).spec_count() < usize::MAX,
        ensures
            final(self).wf(),
            final(self).spec_count() == old(self).spec_count() + 1,
            final(self).spec_base() == old(self).spec_base(),
            final(self).spec_scale() == old(self).spec_scale(),
            r == vdc_spec(final(self).spec_count(), final(self).spec_base(), final(self).spec_scale()),
    {
        self.count = self.count + 1;
        vdc(self.count, self.base, self.scale)
    }

    /// Restarts the sequence after `seed` draws.
    pub fn reseed(&mut self, seed: usize)
        ensures
            final(self).spec_count() == seed,
            final(self).spec_base() == old(self).spec_base(),
            final(self).spec_scale() == old(self).spec_scale(),
    {
        self.count = seed;
    }
}

/// A two-dimensional Halton sequence generator: one van der Corput sequence per axis.
pub struct Halton {
    vdc0: VdCorput,
    vdc1: VdCorput,
}

impl Halton {
    pub closed spec fn first(&self) -> VdCorput {
        self.vdc0
    }

    pub closed spec fn second(&self) -> VdCorput {
        self.vdc1
    }

    pub open spec fn wf(&self) -> bool {
        self.first().wf() && self.second().wf()
    }

    /// Takes the first two bases and scales.
    pub fn new(base: &[usize], scale: &[u32]) -> (r: Self)
        requires
            base@.len() >= 2,
            scale@.len() >= 2,
            base@[0] >= 2,
            base@[1] >= 2,
            pow(base@[0] as int, scale@[0] as nat) <= usize::MAX,
            pow(base@[1] as int, scale@[1] as nat) <= usize::MAX,
        ensures
            r.wf(),
            r.first().spec_count() == 0,
            r.second().spec_count() == 0,
            r.first().spec_base() == base@[0],
            r.second().spec_base() == base@[1],
            r.first().spec_scale() == scale@[0],
            r.second().spec_scale() == scale@[1],
    {
        Halton { vdc0: VdCorput::new(base[0], scale[0]), vdc1: VdCorput::new(base[1], scale[1]) }
    }

    /// The next point: the next number of each axis's sequence.
    pub fn pop(&mut self) -> (r: [usize; 2])
        requires
            old(self).wf(),
            old(self).first().spec_count() < usize::MAX,
            old(self).second().spec_count() < usize::MAX,
        ensures
            final(self).wf(),
            final(self).first().spec_count() == old(self).first().spec_count() + 1,
            final(self).second().spec_count() == old(self).second().spec_count() + 1,
            final(self).first().spec_base() == old(self).first().spec_base(),
            final(self).second().spec_base() == old(self).second().spec_base(),
            final(self).first().spec_scale() == old(self).first().spec_scale(),
            final(self).second().spec_scale() == old(self).second().spec_scale(),
            r[0] == vdc_spec(
                final(self).first().spec_count(),
                final(self).first().spec_base(),
                final(self).first().spec_scale(),
            ),
            r[1] == vdc_spec(
                final(self).second().spec_count(),
                final(self).second().spec_base(),
                final(self).second().spec_scale(),
            ),
    {
        let a = self.vdc0.pop();
        let b = self.vdc1.pop();
        [a, b]
    }

    /// Restarts both sequences after `seed` draws.
    pub fn reseed(&mut self, seed: usize)
        ensures
            final(self).first().spec_count() == seed,
            final(self).second().spec_count() == seed,
            final(self).first().spec_base() == old(self).first().spec_base(),
            final(self).second().spec_base() == old(self).second().spec_base(),
            final(self).first().spec_scale() == old(self).first().spec_scale(),
            final(self).second().spec_scale() == old(self).second().spec_scale(),
    {
        self.vdc0.reseed(seed);
        self.vdc1.reseed(seed);
    }
}

} // verus!
