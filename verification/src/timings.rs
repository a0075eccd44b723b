//! The record of how long each phase of a run took, in nanoseconds.

use vstd::prelude::*;

verus! {

/// `std::time::Instant`, a reading of the monotonic clock.
#[verifier::external_type_specification]
#[verifier::external_body]
pub struct ExInstant(std::time::Instant);

/// `Instant::now`: the present reading of the clock, of which nothing is known.
#[verifier::external_body]
pub(crate) fn start() -> (begun: std::time::Instant) {
    std::time::Instant::now()
}

/// `Instant::elapsed`: the time that has passed since a reading of the
/// clock, of which nothing is known.
#[verifier::external_body]
fn since(begun: &std::time::Instant) -> (passed: std::time::Duration) {
    begun.elapsed()
}

/// `Duration::as_nanos`: a span of time in whole nanoseconds.
#[verifier::external_body]
fn whole_nanos(passed: std::time::Duration) -> (nanos: u128) {
    passed.as_nanos()
}

/// A count of nanoseconds as 64 bits hold it: itself, or the largest value
/// where it does not fit.
pub open spec fn saturated(nanos: u128) -> u64 {
    if nanos > u64::MAX {
        u64::MAX
    } else {
        nanos as u64
    }
}

/// Narrows a count of nanoseconds to 64 bits, which hold more than 500 years.
pub fn saturate(nanos: u128) -> (narrowed: u64)
    ensures
        narrowed == saturated(nanos),
{
    if nanos > u64::MAX as u128 {
        u64::MAX
    } else {
        nanos as u64
    }
}

/// The nanoseconds that have passed since a reading of the clock.
pub fn elapsed(begun: &std::time::Instant) -> (nanos: u64) {
    saturate(whole_nanos(since(begun)))
}

/// The phases of a run that are timed once each.
#[derive(Clone, Copy, Debug, PartialEq, Eq, Structural)]
pub enum Phase {
    KeyGeneration,
    ServerKeySetup,
    Encryption,
    Computation,
    Decryption,
    Total,
}

/// The durations of a run, in nanoseconds: one for each phase that has taken
/// place, and one for each step of the recurrence in the order of the steps.
#[derive(Debug)]
pub struct FibonacciTimings {
    pub key_generation: Option<u64>,
    pub server_key_setup: Option<u64>,
    pub encryption: Option<u64>,
    pub computation: Option<u64>,
    pub computation_steps: Vec<u64>,
    pub decryption: Option<u64>,
    pub total: Option<u64>,
}

/// The sum of a sequence of durations.
pub open spec fn sum(durations: Seq<u64>) -> nat
    decreases durations.len(),
{
    if durations.len() == 0 {
        0
    } else {
        sum(durations.drop_last()) + durations.last() as nat
    }
}

/// A sum of durations is at most as many times the largest 64-bit value as
/// there are durations.
pub proof fn lemma_sum_bound(durations: Seq<u64>)
    ensures
        sum(durations) <= durations.len() * u64::MAX,
    decreases durations.len(),
{
    if durations.len() > 0 {
        lemma_sum_bound(durations.drop_last());
        assert(sum(durations.drop_last()) <= (durations.len() - 1) * u64::MAX);
        assert((durations.len() - 1) * u64::MAX + u64::MAX == durations.len() * u64::MAX)
            by (nonlinear_arith);
    }
}

/// The arithmetic mean of a sequence of durations, rounded down; there is
/// none of an empty sequence.
pub open spec fn mean(durations: Seq<u64>) -> Option<u64> {
    if durations.len() == 0 {
        None
    } else {
        Some((sum(durations) / durations.len()) as u64)
    }
}

impl FibonacciTimings {
    /// The duration recorded for a phase, if any.
    pub open spec fn phase(&self, phase: Phase) -> Option<u64> {
        match phase {
            Phase::KeyGeneration => self.key_generation,
            Phase::ServerKeySetup => self.server_key_setup,
            Phase::Encryption => self.encryption,
            Phase::Computation => self.computation,
            Phase::Decryption => self.decryption,
            Phase::Total => self.total,
        }
    }

    /// Whether nothing has been recorded.
    pub open spec fn is_empty(&self) -> bool {
        &&& forall|phase: Phase| self.phase(phase) is None
        &&& self.computation_steps@.len() == 0
    }

    /// A record with nothing in it.
    pub fn new() -> (timings: Self)
        ensures
            timings.is_empty(),
    {
        FibonacciTimings {
            key_generation: None,
            server_key_setup: None,
            encryption: None,
            computation: None,
            computation_steps: Vec::new(),
            decryption: None,
            total: None,
        }
    }

    /// The duration recorded for a phase, if any.
    pub fn get(&self, phase: Phase) -> (duration: Option<u64>)
        ensures
            duration == self.phase(phase),
    {
        match phase {
            Phase::KeyGeneration => self.key_generation,
            Phase::ServerKeySetup => self.server_key_setup,
            Phase::Encryption => self.encryption,
            Phase::Computation => self.computation,
            Phase::Decryption => self.decryption,
            Phase::Total => self.total,
        }
    }

    /// Records the duration of a phase in place of what was recorded for it
    /// before. The other phases and the steps stay as they are.
    pub fn record(&mut self, phase: Phase, nanos: u64)
        ensures
            final(self).phase(phase) == Some(nanos),
            forall|other: Phase|
                other != phase ==> final(self).phase(other) == old(self).phase(other),
            final(self).computation_steps@ == old(self).computation_steps@,
    {
        match phase {
            Phase::KeyGeneration => {
                self.key_generation = Some(nanos);
            },
            Phase::ServerKeySetup => {
                self.server_key_setup = Some(nanos);
            },
            Phase::Encryption => {
                self.encryption = Some(nanos);
            },
            Phase::Computation => {
                self.computation = Some(nanos);
            },
            Phase::Decryption => {
                self.decryption = Some(nanos);
            },
            Phase::Total => {
                self.total = Some(nanos);
            },
        }
    }

    /// Records the duration of one more step of the recurrence, after those
    /// recorded before. The phases stay as they are.
    pub fn record_step(&mut self, nanos: u64)
        ensures
            final(self).computation_steps@ == old(self).computation_steps@.push(nanos),
            forall|phase: Phase| final(self).phase(phase) == old(self).phase(phase),
    {
        self.computation_steps.push(nanos);
    }

    /// The arithmetic mean of the steps' durations, rounded down, and none
    /// where no step was recorded.
    pub fn mean_step(&self) -> (average: Option<u64>)
        ensures
            average == mean(self.computation_steps@),
    {
        let count: usize = self.computation_steps.len();
        if count == 0 {
            return None;
        }
        let mut total: u128 = 0;
        let mut i: usize = 0;
        while i < count
            invariant
                count == self.computation_steps.len(),
                i <= count,
                total == sum(self.computation_steps@.take(i as int)),
            decreases count - i,
        {
            proof {
                let next = self.computation_steps@.take(i + 1);
                assert(next.drop_last() =~= self.computation_steps@.take(i as int));
                lemma_sum_bound(next);
                assert(next.len() * u64::MAX <= usize::MAX * u64::MAX) by (nonlinear_arith)
                    requires
                        next.len() <= usize::MAX,
                ;
            }
            total = total + self.computation_steps[i] as u128;
            i = i + 1;
        }
        proof {
            assert(self.computation_steps@.take(count as int) =~= self.computation_steps@);
            lemma_sum_bound(self.computation_steps@);
            assert(sum(self.computation_steps@) / (count as nat) <= u64::MAX) by (nonlinear_arith)
                requires
                    sum(self.computation_steps@) <= count * u64::MAX,
                    count > 0,
            ;
        }
        Some((total / count as u128) as u64)
    }
}

impl Default for FibonacciTimings {
    fn default() -> (timings: Self)
        ensures
            timings.is_empty(),
    {
        FibonacciTimings::new()
    }
}

} // verus!
