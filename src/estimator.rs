use vstd::prelude::*;
use crate::sequence::ConfigError;

verus! {

/// Step control of the Lyapunov exponent estimator for one pixel.
///
/// The floating-point work (the logistic recurrence and the logarithm of the
/// derivative) is done by the caller; this type decides which step comes next,
/// whether a step adds its term to the exponent sum, when the loop stops, and
/// by how much the sum is divided at the end.
pub struct Estimator {
    step: u32,
    depth: u32,
    warmup: u32,
    stopped: bool,
}

impl Estimator {
    /// Number of steps finished so far.
    pub closed spec fn steps(&self) -> nat {
        self.step as nat
    }

    pub closed spec fn depth_spec(&self) -> nat {
        self.depth as nat
    }

    pub closed spec fn warmup_spec(&self) -> nat {
        self.warmup as nat
    }

    /// Whether the divergence bound stopped the loop.
    pub closed spec fn stopped_spec(&self) -> bool {
        self.stopped
    }

    pub closed spec fn wf(&self) -> bool {
        self.warmup < self.depth && self.step <= self.depth
    }

    /// The loop has ended: every step was taken, or the sum diverged.
    pub open spec fn is_done(&self) -> bool {
        self.stopped_spec() || self.steps() >= self.depth_spec()
    }

    /// The state after the current step is finished.
    pub closed spec fn after_step(self, diverged: bool) -> Estimator {
        Estimator { step: (self.step + 1) as u32, stopped: diverged, ..self }
    }

    /// A step adds its term unless it lies within the warmup and the orbit
    /// still sits exactly at its starting point.
    pub open spec fn accumulates_spec(&self, at_start: bool) -> bool {
        self.steps() > self.warmup_spec() || !at_start
    }

    /// Starts the control for a run of `depth` steps whose first `warmup` steps
    /// may skip their term.
    pub fn new(depth: u32, warmup: u32) -> (r: Result<Estimator, ConfigError>)
        ensures
            r is Ok <==> depth > warmup,
            r is Err ==> r == Err::<Estimator, ConfigError>(ConfigError::InvalidIterationConfig),
            r matches Ok(e) ==> e.wf() && e.steps() == 0 && !e.stopped_spec()
                && e.depth_spec() == depth && e.warmup_spec() == warmup,
    {
        if depth <= warmup {
            Err(ConfigError::InvalidIterationConfig)
        } else {
            Ok(Estimator::start(depth, warmup))
        }
    }

    /// Starts the control for a depth and warmup already known to be valid.
    pub fn start(depth: u32, warmup: u32) -> (e: Estimator)
        requires
            depth > warmup,
        ensures
            e.wf(),
            e.steps() == 0,
            !e.stopped_spec(),
            e.depth_spec() == depth,
            e.warmup_spec() == warmup,
    {
        Estimator { step: 0, depth, warmup, stopped: false }
    }

    /// The index of the step to take now, or `None` once the loop has ended.
    pub fn current_step(&self) -> (r: Option<u32>)
        requires
            self.wf(),
        ensures
            r is None <==> self.is_done(),
            r matches Some(n) ==> n == self.steps(),
    {
        if self.stopped || self.step >= self.depth {
            None
        } else {
            Some(self.step)
        }
    }

    /// Whether the current step adds `ln|r (1 - 2x)|` to the exponent sum;
    /// `at_start` tells whether `x` equals its starting value one half.
    pub fn accumulates(&self, at_start: bool) -> (r: bool)
        ensures
            r == self.accumulates_spec(at_start),
    {
        self.step > self.warmup || !at_start
    }

    /// Finishes the current step; `diverged` tells whether the magnitude of
    /// the exponent sum now exceeds the divergence bound.
    pub fn finish_step(&mut self, diverged: bool)
        requires
            old(self).wf(),
            !old(self).is_done(),
        ensures
            *final(self) == old(self).after_step(diverged),
            final(self).wf(),
            final(self).steps() == old(self).steps() + 1,
            final(self).stopped_spec() == diverged,
            final(self).depth_spec() == old(self).depth_spec(),
            final(self).warmup_spec() == old(self).warmup_spec(),
    {
        self.step = self.step + 1;
        self.stopped = diverged;
    }

    /// Number of steps finished so far.
    pub fn steps_taken(&self) -> (r: u32)
        ensures
            r == self.steps(),
    {
        self.step
    }

    /// The normalisation divisor: `depth - warmup`, whether or not the loop
    /// stopped early.
    pub fn divisor(&self) -> (r: u32)
        requires
            self.wf(),
        ensures
            r == self.depth_spec() - self.warmup_spec(),
            r > 0,
    {
        self.depth - self.warmup
    }
}

/// A step whose sum diverges ends the loop at once: fewer than `depth` steps
/// are taken when it is not the last one, and the divisor stays
/// `depth - warmup`.
pub proof fn lemma_early_exit(e: Estimator)
    requires
        e.wf(),
        !e.is_done(),
    ensures
        e.after_step(true).is_done(),
        e.after_step(true).steps() == e.steps() + 1,
        e.steps() + 1 < e.depth_spec() ==> e.after_step(true).steps() < e.depth_spec(),
        e.after_step(true).wf(),
        e.after_step(true).depth_spec() - e.after_step(true).warmup_spec()
            == e.depth_spec() - e.warmup_spec(),
{
}

} // verus!
