//! Randomly re-rolled tick periods.
//!
//! A [`RandomPeriod`] holds an inclusive range of whole milliseconds and a small
//! fast random number generator; each sample draws a period uniformly from the
//! range and floors it at one millisecond, so that no ticker is ever handed a
//! zero period.

use rand::rngs::{SmallRng, ThreadRng};
use rand::distr::uniform::Error as UniformError;
use rand::distr::{Distribution, Uniform};
use rand::SeedableRng;
use vstd::prelude::*;

use crate::schedule::{lemma_ticks_after_restart, ScheduleState, NANOS_PER_MILLI};

verus! {

#[verifier::external_type_specification]
#[verifier::external_body]
pub struct ExSmallRng(rand::rngs::SmallRng);

#[verifier::external_type_specification]
#[verifier::external_body]
pub struct ExThreadRng(rand::rngs::ThreadRng);

/// `rand::rng`: a handle on the thread-local generator, which the operating
/// system's entropy seeds. Nothing is stated of it: it is a random source.
/// It panics if the operating system cannot supply entropy, which no argument
/// can rule out.
#[verifier::external_body]
fn thread_rng() -> ThreadRng {
    rand::rng()
}

/// `rand::SeedableRng::from_rng` for `SmallRng`: a generator seeded with bytes
/// drawn from `source`. Nothing is stated of it: its seed is random.
#[verifier::external_body]
fn small_rng_from(source: &mut ThreadRng) -> SmallRng {
    SmallRng::from_rng(source)
}

/// The generator that `SmallRng::seed_from_u64` builds from `seed`.
pub uninterp spec fn seeded_rng(seed: u64) -> SmallRng;

/// `rand::SeedableRng::seed_from_u64` for `SmallRng`: the generator is a
/// function of `seed` alone, and it does not panic.
#[verifier::external_body]
fn rng_from_seed(seed: u64) -> (rng: SmallRng)
    ensures
        rng == seeded_rng(seed),
{
    SmallRng::seed_from_u64(seed)
}

/// A uniform distribution over `u64` milliseconds, held in a private field.
/// The values it draws from are given by [`millis_support`].
#[verifier::external_body]
pub struct MillisDistribution {
    distribution: Uniform<u64>,
}

#[verifier::external_type_specification]
#[verifier::external_body]
pub struct ExUniformError(rand::distr::uniform::Error);

/// The values a uniform distribution over `u64` draws from: its support, the
/// inclusive range it was built with.
pub uninterp spec fn millis_support(distribution: MillisDistribution) -> Set<u64>;

/// The inclusive range `low..=high` as a set.
pub open spec fn inclusive_range(low: u64, high: u64) -> Set<u64> {
    Set::new(|value: u64| low <= value <= high)
}

/// `rand::distr::Uniform::new_inclusive` for `u64`: fails exactly when
/// `low > high`, and otherwise gives a distribution over `low..=high`.
#[verifier::external_body]
fn uniform_inclusive(low: u64, high: u64) -> (distribution: Result<MillisDistribution, UniformError>)
    ensures
        distribution is Ok <==> low <= high,
        distribution matches Ok(d) ==> millis_support(d) == inclusive_range(low, high),
{
    match Uniform::new_inclusive(low, high) {
        Ok(distribution) => Ok(MillisDistribution { distribution }),
        Err(error) => Err(error),
    }
}

/// `rand::distr::Distribution::sample` for `Uniform<u64>`: a value of the
/// distribution's support, drawn with the generator; it does not panic.
/// Which value comes back depends on the generator's state, and is not
/// stated.
#[verifier::external_body]
fn sample_uniform(distribution: &MillisDistribution, rng: &mut SmallRng) -> (value: u64)
    ensures
        millis_support(*distribution).contains(value),
    no_unwind
{
    distribution.distribution.sample(rng)
}

/// The low 64 bits of a millisecond count, which is what `as u64` keeps of
/// the `u128` that `Duration::as_millis` returns.
pub open spec fn millis_bits(millis: u128) -> u64 {
    (millis % 0x1_0000_0000_0000_0000u128) as u64
}

/// A sampled millisecond count floored at one.
pub open spec fn floored(sample: u64) -> u64 {
    if sample == 0 {
        1
    } else {
        sample
    }
}

/// Keep the low 64 bits of a millisecond count.
pub fn truncate_millis(millis: u128) -> (bits: u64)
    ensures
        bits == millis_bits(millis),
        bits == millis % 0x1_0000_0000_0000_0000u128,
        millis < 0x1_0000_0000_0000_0000u128 ==> bits == millis,
{
    assert(millis as u64 == (millis % 0x1_0000_0000_0000_0000u128) as u64) by (bit_vector);
    millis as u64
}

/// Floor a sampled period at one millisecond, so that a ticker is never given
/// a zero period.
pub fn floor_period_millis(sample: u64) -> (millis: u64)
    ensures
        millis == floored(sample),
        millis >= 1,
        sample >= 1 ==> millis == sample,
        sample == 0 ==> millis == 1,
{
    if sample == 0 {
        1
    } else {
        sample
    }
}

/// Mix two 32-bit random draws and the clock's bits into one seed: the first
/// draw goes to the high half, and the second draw and the clock are folded
/// in with exclusive or.
pub fn mix_seed(high: u64, low: u64, clock_bits: u64) -> (seed: u64)
    ensures
        seed == ((high << 32u64) ^ low ^ clock_bits),
{
    (high << 32u64) ^ low ^ clock_bits
}

/// A source of tick periods drawn uniformly from an inclusive range of whole
/// milliseconds.
pub struct RandomPeriod {
    min_millis: u64,
    max_millis: u64,
    distribution: MillisDistribution,
    rng: SmallRng,
}

impl RandomPeriod {
    /// The range is never empty, and the distribution draws from exactly that
    /// range.
    #[verifier::type_invariant]
    spec fn draws_from_range(self) -> bool {
        &&& self.min_millis <= self.max_millis
        &&& millis_support(self.distribution) == inclusive_range(
            self.min_millis,
            self.max_millis,
        )
    }

    /// The smallest period of the range, in milliseconds.
    pub closed spec fn min_millis(self) -> u64 {
        self.min_millis
    }

    /// The largest period of the range, in milliseconds.
    pub closed spec fn max_millis(self) -> u64 {
        self.max_millis
    }

    /// The generator the periods are drawn with.
    pub closed spec fn generator(self) -> SmallRng {
        self.rng
    }

    /// A source for the range `min_millis..=max_millis`, each bound cut to its
    /// low 64 bits, with a generator seeded from the thread-local generator.
    /// `None` when the range is empty.
    pub fn new(min_millis: u128, max_millis: u128) -> (source: Option<RandomPeriod>)
        ensures
            source is Some <==> millis_bits(min_millis) <= millis_bits(max_millis),
            source matches Some(p) ==> p.min_millis() == millis_bits(min_millis)
                && p.max_millis() == millis_bits(max_millis),
            source matches Some(p) ==> p.min_millis() == min_millis % 0x1_0000_0000_0000_0000u128
                && p.max_millis() == max_millis % 0x1_0000_0000_0000_0000u128,
    {
        let low = truncate_millis(min_millis);
        let high = truncate_millis(max_millis);
        match uniform_inclusive(low, high) {
            Ok(distribution) => {
                let mut source = thread_rng();
                let rng = small_rng_from(&mut source);
                Some(RandomPeriod { min_millis: low, max_millis: high, distribution, rng })
            },
            Err(_) => None,
        }
    }

    /// A source for the range `min_millis..=max_millis`, each bound cut to its
    /// low 64 bits, with a generator seeded from `seed`. `None` when the range
    /// is empty.
    pub fn with_seed(min_millis: u128, max_millis: u128, seed: u64) -> (source: Option<RandomPeriod>)
        ensures
            source is Some <==> millis_bits(min_millis) <= millis_bits(max_millis),
            source matches Some(p) ==> p.min_millis() == millis_bits(min_millis)
                && p.max_millis() == millis_bits(max_millis),
            source matches Some(p) ==> p.min_millis() == min_millis % 0x1_0000_0000_0000_0000u128
                && p.max_millis() == max_millis % 0x1_0000_0000_0000_0000u128,
            source matches Some(p) ==> p.generator() == seeded_rng(seed),
    {
        let low = truncate_millis(min_millis);
        let high = truncate_millis(max_millis);
        match uniform_inclusive(low, high) {
            Ok(distribution) => {
                let rng = rng_from_seed(seed);
                Some(RandomPeriod { min_millis: low, max_millis: high, distribution, rng })
            },
            Err(_) => None,
        }
    }

    /// The smallest period of the range, in milliseconds.
    pub fn min_period_millis(&self) -> (millis: u64)
        ensures
            millis == self.min_millis(),
    {
        self.min_millis
    }

    /// The largest period of the range, in milliseconds.
    pub fn max_period_millis(&self) -> (millis: u64)
        ensures
            millis == self.max_millis(),
    {
        self.max_millis
    }

    /// Draw the next period, in milliseconds: a value of the range, floored
    /// at one millisecond. The range itself does not change.
    pub fn sample_period(&mut self) -> (millis: u64)
        ensures
            final(self).min_millis() == old(self).min_millis(),
            final(self).max_millis() == old(self).max_millis(),
            exists|sample: u64|
                old(self).min_millis() <= sample <= old(self).max_millis() && millis
                    == floored(sample),
            floored(old(self).min_millis()) <= millis <= floored(old(self).max_millis()),
            old(self).min_millis() <= millis <= old(self).max_millis() || (old(self).min_millis()
                == 0 && millis == 1),
            exists|sample: u64|
                #[trigger] inclusive_range(old(self).min_millis(), old(self).max_millis()).contains(
                    sample,
                ) && (sample >= 1 ==> millis == sample) && (sample == 0 ==> millis == 1),
            millis >= 1,
    {
        proof {
            use_type_invariant(&*self);
        }
        let sample = sample_uniform(&self.distribution, &mut self.rng);
        assert(inclusive_range(self.min_millis, self.max_millis).contains(sample));
        floor_period_millis(sample)
    }
}

/// Flooring only lifts a zero sample to one millisecond: every other sample
/// is kept as it is.
pub proof fn lemma_floor_keeps_nonzero_samples(sample: u64)
    ensures
        sample >= 1 ==> floored(sample) == sample,
        sample == 0 ==> floored(sample) == 1,
        floored(sample) as int == if sample >= 1 { sample as int } else { 1int },
{
}

/// A sampled period lies in the configured range: between its bounds, or one
/// millisecond when the range starts at zero and the sample was zero.
pub proof fn lemma_sampled_period_in_configured_range(min_millis: u64, max_millis: u64, sample: u64)
    requires
        min_millis <= sample <= max_millis,
    ensures
        min_millis <= floored(sample) <= max_millis || (min_millis == 0 && floored(sample) == 1),
        min_millis >= 1 ==> min_millis <= floored(sample) <= max_millis,
{
}

/// Cutting a millisecond count to 64 bits keeps its remainder modulo 2^64,
/// and so keeps every count that already fits in 64 bits unchanged.
pub proof fn lemma_millis_bits_keeps_counts_that_fit(millis: u128)
    ensures
        millis_bits(millis) as int == millis as int % 0x1_0000_0000_0000_0000int,
        millis < 0x1_0000_0000_0000_0000u128 ==> millis_bits(millis) == millis,
        millis >= 0x1_0000_0000_0000_0000u128 ==> millis_bits(millis) as int == millis as int
            - 0x1_0000_0000_0000_0000int * (millis as int / 0x1_0000_0000_0000_0000int),
{
}

/// Every period a source hands out is at least one millisecond long, and lies
/// between the floored bounds of its range.
pub proof fn lemma_sampled_period_in_range(min_millis: u64, max_millis: u64, sample: u64)
    requires
        min_millis <= sample <= max_millis,
    ensures
        floored(min_millis) <= floored(sample) <= floored(max_millis),
        floored(sample) >= 1,
{
}

/// Re-rolling the period never produces an immediate tick: a schedule
/// restarted at `at` with any period a source hands out (at least one
/// millisecond) makes the next tick sleep at least one millisecond, the whole
/// new period when it starts right at `at`, and the `k`-th tick after it
/// (counting from zero) is due `k + 1` new periods after the restart.
pub proof fn lemma_randomize_never_ticks_instantly(
    s: ScheduleState,
    millis: u64,
    at: nat,
    now: nat,
    k: nat,
)
    requires
        millis >= 1,
        at <= now,
    ensures
        s.restarted((millis * NANOS_PER_MILLI) as nat, at).wait_at(at) == millis * NANOS_PER_MILLI,
        s.restarted((millis * NANOS_PER_MILLI) as nat, at).wait_at(at) >= NANOS_PER_MILLI,
        s.restarted((millis * NANOS_PER_MILLI) as nat, at).fires_at(now) >= at + NANOS_PER_MILLI,
        s.restarted((millis * NANOS_PER_MILLI) as nat, at).ticked_n(k).next == at + (k + 1) * (
        millis * NANOS_PER_MILLI),
{
    assert(millis * NANOS_PER_MILLI >= NANOS_PER_MILLI) by (nonlinear_arith)
        requires
            millis >= 1,
    ;
    lemma_ticks_after_restart(s, (millis * NANOS_PER_MILLI) as nat, at, k);
}

} // verus!
