use vstd::prelude::*;

verus! {

/// Nominal clock rate of the emulated hardware, in ticks per second.
pub const CRYSTAL_FREQUENCY: u32 = 16_000_000;

/// Output sample rate of the derived audio stream, in pairs per second.
pub const SAMPLE_RATE: u32 = 16_000;

/// Number of ticks advanced between two pacing checkpoints.
pub const TICK_GROUP: u32 = 8;

pub const NANOS_PER_SECOND: u64 = 1_000_000_000;

/// Explicit pacing parameters, handed to the worker at construction so that
/// no process-wide constant is load-bearing.
#[derive(Clone, Copy, Debug, PartialEq, Eq, Structural)]
pub struct TimingConfig {
    /// Ticks per second the emulation is paced against.
    pub crystal_frequency: u32,
    /// Ticks advanced per pacing iteration.
    pub tick_group: u32,
    /// Audio pairs per second drawn from the tick stream.
    pub sample_rate: u32,
}

impl TimingConfig {
    pub open spec fn wf(self) -> bool {
        &&& self.crystal_frequency >= 1
        &&& self.tick_group >= 1
        &&& self.sample_rate >= 1
        &&& self.sample_rate <= self.crystal_frequency
    }

    /// The duration of one tick group in nanoseconds: the scheduled trigger
    /// instant advances by exactly this much per pacing iteration.
    pub open spec fn spec_group_period_nanos(self) -> int {
        self.tick_group * NANOS_PER_SECOND / self.crystal_frequency as int
    }

    /// Number of core ticks between two audio samples: the decimation ratio
    /// from the emulated clock domain to the output sample rate.
    pub open spec fn spec_ticks_per_sample(self) -> int {
        self.crystal_frequency as int / self.sample_rate as int
    }

    pub fn new(crystal_frequency: u32, tick_group: u32, sample_rate: u32) -> (c: Self)
        requires
            crystal_frequency >= 1,
            tick_group >= 1,
            1 <= sample_rate <= crystal_frequency,
        ensures
            c.wf(),
            c.crystal_frequency == crystal_frequency,
            c.tick_group == tick_group,
            c.sample_rate == sample_rate,
    {
        TimingConfig { crystal_frequency, tick_group, sample_rate }
    }

    /// Nanoseconds between two scheduled trigger instants.
    pub fn group_period_nanos(&self) -> (r: u64)
        requires
            self.wf(),
        ensures
            r == self.spec_group_period_nanos(),
    {
        (self.tick_group as u64 * NANOS_PER_SECOND) / self.crystal_frequency as u64
    }

    /// Core ticks per emitted audio sample pair.
    pub fn ticks_per_sample(&self) -> (r: u32)
        requires
            self.wf(),
        ensures
            r == self.spec_ticks_per_sample(),
            r >= 1,
    {
        proof {
            vstd::arithmetic::div_mod::lemma_div_non_zero(
                self.crystal_frequency as int,
                self.sample_rate as int,
            );
        }
        self.crystal_frequency / self.sample_rate
    }
}

/// Law: at the nominal crystal frequency, a group of eight ticks is paced at
/// exactly 500 nanoseconds, so the long-run tick rate tracks the crystal.
pub proof fn lemma_nominal_group_period()
    ensures
        (TimingConfig {
            crystal_frequency: CRYSTAL_FREQUENCY,
            tick_group: TICK_GROUP,
            sample_rate: SAMPLE_RATE,
        }).spec_group_period_nanos() == 500,
{
    assert(TICK_GROUP * NANOS_PER_SECOND == 8_000_000_000);
    assert(8_000_000_000int / 16_000_000int == 500) by (nonlinear_arith);
}

/// Law: at the nominal crystal frequency and sample rate, one audio pair is
/// drawn per thousand core ticks.
pub proof fn lemma_nominal_decimation_ratio()
    ensures
        (TimingConfig {
            crystal_frequency: CRYSTAL_FREQUENCY,
            tick_group: TICK_GROUP,
            sample_rate: SAMPLE_RATE,
        }).spec_ticks_per_sample() == 1000,
{
    assert(16_000_000int / 16_000int == 1000) by (nonlinear_arith);
}

} // verus!
