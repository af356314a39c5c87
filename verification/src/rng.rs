//! The deterministic random number generator.
//!
//! Every run of a scenario draws all of its randomness from one of these
//! generators, seeded from the run's effective seed, so that a run is a pure
//! function of its seed. The algorithm is a SplitMix-style 64-bit mixer: it
//! is small, explicit, and stable, which is what seed replay requires.

use vstd::prelude::*;

verus! {

/// Advance the generator state by the SplitMix odd constant.
pub open spec fn splitmix_next_state(s: u64) -> u64 {
    s.wrapping_add(0x9E37_79B9_7F4A_7C15)
}

/// The output mix applied to a freshly advanced state.
pub open spec fn splitmix_output(s: u64) -> u64 {
    let z0 = (s ^ (s >> 30)).wrapping_mul(0xBF58_476D_1CE4_E5B9);
    let z1 = (z0 ^ (z0 >> 27)).wrapping_mul(0x94D0_49BB_1331_11EB);
    z1 ^ (z1 >> 31)
}

/// A generator: a value drawn now, and the state left behind.
pub trait GenericRng: Sized {
    /// The state after one draw.
    spec fn next_state_spec(&self) -> Self;

    /// The value of the next draw.
    spec fn next_value_spec(&self) -> u64;

    fn next_u64(&mut self) -> (r: u64)
        ensures
            *final(self) == old(self).next_state_spec(),
            r == old(self).next_value_spec(),
    ;
}

/// The simulator's own generator: 64 bits of state, advanced by SplitMix.
pub struct SimulatorRng {
    state: u64,
}

impl SimulatorRng {
    pub closed spec fn state_spec(&self) -> u64 {
        self.state
    }

    pub fn new(seed: u64) -> (r: Self)
        ensures
            r.state_spec() == seed,
    {
        SimulatorRng { state: seed }
    }
}

impl GenericRng for SimulatorRng {
    closed spec fn next_state_spec(&self) -> Self {
        SimulatorRng { state: splitmix_next_state(self.state_spec()) }
    }

    open spec fn next_value_spec(&self) -> u64 {
        splitmix_output(splitmix_next_state(self.state_spec()))
    }

    fn next_u64(&mut self) -> (r: u64) {
        self.state = self.state.wrapping_add(0x9E37_79B9_7F4A_7C15);
        let s = self.state;
        let z0 = (s ^ (s >> 30)).wrapping_mul(0xBF58_476D_1CE4_E5B9);
        let z1 = (z0 ^ (z0 >> 27)).wrapping_mul(0x94D0_49BB_1331_11EB);
        z1 ^ (z1 >> 31)
    }
}

/// A thin wrapper that fixes the generator implementation used elsewhere.
pub struct RngWrapper<R: GenericRng>(pub R);

impl<R: GenericRng> GenericRng for RngWrapper<R> {
    open spec fn next_state_spec(&self) -> Self {
        RngWrapper(self.0.next_state_spec())
    }

    open spec fn next_value_spec(&self) -> u64 {
        self.0.next_value_spec()
    }

    fn next_u64(&mut self) -> (r: u64) {
        self.0.next_u64()
    }
}

/// The generator handle the rest of the crate carries.
pub type Rng = RngWrapper<SimulatorRng>;

impl Rng {
    /// The current 64-bit state.
    pub open spec fn state_spec(&self) -> u64 {
        self.0.state_spec()
    }

    /// The generator value carrying the given state.
    pub closed spec fn from_seed_spec(seed: u64) -> Rng {
        RngWrapper(SimulatorRng { state: seed })
    }

    pub fn from_seed(seed: u64) -> (r: Self)
        ensures
            r.state_spec() == seed,
            r == Self::from_seed_spec(seed),
    {
        RngWrapper(SimulatorRng::new(seed))
    }

    /// State after one draw, as a function of the current state.
    pub open spec fn state_after_draw(s: u64) -> u64 {
        splitmix_next_state(s)
    }

    /// The value of one draw, as a function of the current state.
    pub open spec fn draw_value(s: u64) -> u64 {
        splitmix_output(splitmix_next_state(s))
    }

    /// A draw reduced to the half-open interval `[lo, hi)`.
    pub open spec fn range_value(s: u64, lo: u64, hi: u64) -> u64
        recommends
            lo < hi,
    {
        (lo + (Self::draw_value(s) % ((hi - lo) as u64))) as u64
    }

    pub fn draw_u64(&mut self) -> (r: u64)
        ensures
            final(self).state_spec() == Self::state_after_draw(old(self).state_spec()),
            r == Self::draw_value(old(self).state_spec()),
    {
        self.next_u64()
    }

    /// A uniform draw on the half-open interval `[lo, hi)`.
    pub fn gen_range(&mut self, lo: u64, hi: u64) -> (r: u64)
        requires
            lo < hi,
        ensures
            final(self).state_spec() == Self::state_after_draw(old(self).state_spec()),
            r == Self::range_value(old(self).state_spec(), lo, hi),
            lo <= r < hi,
    {
        let v = self.draw_u64();
        lo + (v % (hi - lo))
    }

    /// Holds with the stated ratio out of 100 under a uniform draw.
    pub open spec fn bool_value(s: u64, percent: u64) -> bool {
        Self::draw_value(s) % 100 < percent
    }

    /// A biased coin: true with roughly `percent` out of 100.
    pub fn gen_bool_percent(&mut self, percent: u64) -> (r: bool)
        ensures
            final(self).state_spec() == Self::state_after_draw(old(self).state_spec()),
            r == Self::bool_value(old(self).state_spec(), percent),
    {
        let v = self.draw_u64();
        v % 100 < percent
    }
}

/// A generator is its state: the value with a given state is the one
/// `from_seed_spec` names.
pub proof fn lemma_rng_state_determines(a: Rng, b: Rng)
    requires
        a.state_spec() == b.state_spec(),
    ensures
        a == b,
{
    assert(a == RngWrapper(SimulatorRng { state: a.state_spec() }));
    assert(b == RngWrapper(SimulatorRng { state: b.state_spec() }));
}

/// The state `from_seed_spec` starts from.
pub proof fn lemma_from_seed_spec_state(seed: u64)
    ensures
        Rng::from_seed_spec(seed).state_spec() == seed,
{
}

/// A 64-bit binary fraction raised to a positive integer power, truncating
/// after each multiplication; the result is again a 64-bit fraction.
pub open spec fn pow_frac(f: u64, k: u64) -> u64
    decreases k,
{
    if k <= 1 {
        f
    } else {
        (((pow_frac(f, (k - 1) as u64) as int) * (f as int)) / 0x1_0000_0000_0000_0000) as u64
    }
}

proof fn lemma_frac_mul_bounded(a: u64, b: u64)
    ensures
        0 <= ((a as int) * (b as int)) / 0x1_0000_0000_0000_0000 < 0x1_0000_0000_0000_0000,
{
    assert(0 <= ((a as int) * (b as int)) / 0x1_0000_0000_0000_0000 < 0x1_0000_0000_0000_0000)
        by (nonlinear_arith)
        requires
            0 <= a < 0x1_0000_0000_0000_0000,
            0 <= b < 0x1_0000_0000_0000_0000,
    ;
}

impl Rng {
    /// A biased draw on `[lo, hi)`: a uniform 64-bit fraction is raised to the
    /// power `bias` and scaled over the interval, so a bias above one skews
    /// the result toward `lo`.
    pub open spec fn range_dist_value(s: u64, lo: u64, hi: u64, bias: u64) -> u64
        recommends
            lo < hi,
    {
        let f = pow_frac(Self::draw_value(s), bias);
        (lo + (((hi - lo) * (f as int)) / 0x1_0000_0000_0000_0000)) as u64
    }

    /// A draw on `[lo, hi)` biased by the integer exponent `bias` (a bias of
    /// one is uniform; larger biases skew toward `lo`).
    pub fn gen_range_disti(&mut self, lo: u64, hi: u64, bias: u64) -> (r: u64)
        requires
            lo < hi,
        ensures
            final(self).state_spec() == Self::state_after_draw(old(self).state_spec()),
            r == Self::range_dist_value(old(self).state_spec(), lo, hi, bias),
            lo <= r < hi,
    {
        let v = self.draw_u64();
        let mut f = v;
        let mut i: u64 = 1;
        while i < bias
            invariant
                1 <= i,
                bias > 1 ==> i <= bias,
                f == pow_frac(v, if i <= bias { i } else { 1 }),
            decreases bias - i,
        {
            proof {
                lemma_frac_mul_bounded(f, v);
            }
            f = ((f as u128 * v as u128) / 0x1_0000_0000_0000_0000u128) as u64;
            i = i + 1;
        }
        proof {
            assert(f == pow_frac(v, bias) || (bias <= 1 && f == pow_frac(v, 1)));
            assert(pow_frac(v, 1) == pow_frac(v, bias) || bias > 1);
            assert(0 <= ((hi - lo) * (f as int)) / 0x1_0000_0000_0000_0000 < (hi - lo))
                by (nonlinear_arith)
                requires
                    lo < hi,
                    0 <= f < 0x1_0000_0000_0000_0000,
            ;
        }
        let scaled = ((hi - lo) as u128 * f as u128) / 0x1_0000_0000_0000_0000u128;
        lo + (scaled as u64)
    }
}

} // verus!
