//! The fixed-timestep accumulator: frame time of any length goes in, a
//! whole number of simulation steps of one fixed length comes out.

use vstd::prelude::*;
use crate::error::ConfigurationError;

verus! {

/// How many simulation steps make one second.
pub const FRAMES_PER_SECOND: u32 = 60;

/// How many ticks make one second.
pub const TICKS_PER_SECOND: u64 = 6_000_000;

/// The length of one simulation step in ticks: a second's ticks shared
/// out evenly among a second's steps.
pub const TIMESTEP: u64 = 100_000;

/// The number of whole steps of length `fixed_step` contained in the time
/// carried over plus the time that was added.
pub open spec fn steps_due(accumulated: int, dt: int, fixed_step: int) -> int {
    (accumulated + dt) / fixed_step
}

/// The time that is left when every whole step has been taken out.
pub open spec fn time_carried(accumulated: int, dt: int, fixed_step: int) -> int {
    (accumulated + dt) % fixed_step
}

/// Time that has come in and has not yet been spent on a step, together
/// with the length of one step, both in ticks.
#[derive(Debug)]
pub struct SimulationClock {
    accumulated_time: u64,
    fixed_step: u64,
}

impl SimulationClock {
    /// Between calls the clock holds less than one step.
    #[verifier::type_invariant]
    spec fn well_formed(self) -> bool {
        self.accumulated_time < self.fixed_step
    }

    pub closed spec fn spec_accumulated_time(&self) -> u64 {
        self.accumulated_time
    }

    pub closed spec fn spec_fixed_step(&self) -> u64 {
        self.fixed_step
    }

    /// A clock with nothing accumulated. A step of zero ticks is refused.
    pub fn new(fixed_step: u64) -> (r: Result<SimulationClock, ConfigurationError>)
        ensures
            fixed_step == 0 <==> r is Err,
            r matches Err(e) ==> e == ConfigurationError::ZeroFixedStep,
            r matches Ok(clock) ==> clock.spec_fixed_step() == fixed_step
                && clock.spec_accumulated_time() == 0,
    {
        if fixed_step == 0 {
            Err(ConfigurationError::ZeroFixedStep)
        } else {
            Ok(SimulationClock { accumulated_time: 0, fixed_step })
        }
    }

    /// A clock with nothing accumulated that steps `FRAMES_PER_SECOND`
    /// times a second.
    pub fn standard() -> (clock: SimulationClock)
        ensures
            clock.spec_fixed_step() == TIMESTEP,
            clock.spec_accumulated_time() == 0,
            TIMESTEP * FRAMES_PER_SECOND == TICKS_PER_SECOND,
    {
        SimulationClock { accumulated_time: 0, fixed_step: TIMESTEP }
    }

    /// Time not yet spent on a step, in ticks.
    #[verifier::when_used_as_spec(spec_accumulated_time)]
    pub fn accumulated_time(&self) -> (t: u64)
        ensures
            t == self.spec_accumulated_time(),
            t < self.spec_fixed_step(),
    {
        proof {
            use_type_invariant(self);
        }
        self.accumulated_time
    }

    /// The length of one step, in ticks.
    #[verifier::when_used_as_spec(spec_fixed_step)]
    pub fn fixed_step(&self) -> (t: u64)
        ensures
            t == self.spec_fixed_step(),
            t > 0,
    {
        proof {
            use_type_invariant(self);
        }
        self.fixed_step
    }

    /// Adds `dt` ticks and takes out every whole step. The result is the
    /// number of steps the caller now owes the simulation.
    pub fn advance(&mut self, dt: u64) -> (steps: u64)
        ensures
            final(self).fixed_step() == old(self).fixed_step(),
            old(self).accumulated_time() + dt
                == steps * old(self).fixed_step() + final(self).accumulated_time(),
            0 <= final(self).accumulated_time() < final(self).fixed_step(),
            steps == steps_due(
                old(self).accumulated_time() as int,
                dt as int,
                old(self).fixed_step() as int,
            ),
            final(self).accumulated_time() == time_carried(
                old(self).accumulated_time() as int,
                dt as int,
                old(self).fixed_step() as int,
            ),
    {
        proof {
            use_type_invariant(&*self);
        }
        let step: u128 = self.fixed_step as u128;
        let total: u128 = self.accumulated_time as u128 + dt as u128;
        let whole: u128 = total / step;
        let rest: u128 = total % step;
        proof {
            lemma_whole_steps_bounded(self.accumulated_time as int, dt as int, step as int);
            vstd::arithmetic::div_mod::lemma_fundamental_div_mod(total as int, step as int);
        }
        self.accumulated_time = rest as u64;
        whole as u64
    }
}

/// Fewer steps come out than ticks went in, unless nothing went in: with
/// less than one step carried over, `dt` ticks hold at most `dt` steps.
proof fn lemma_whole_steps_bounded(accumulated: int, dt: int, fixed_step: int)
    requires
        0 <= accumulated < fixed_step,
        0 <= dt,
    ensures
        0 <= (accumulated + dt) / fixed_step <= dt,
        0 <= (accumulated + dt) % fixed_step < fixed_step,
{
    let total = accumulated + dt;
    vstd::arithmetic::div_mod::lemma_fundamental_div_mod(total, fixed_step);
    vstd::arithmetic::div_mod::lemma_mod_bound(total, fixed_step);
    vstd::arithmetic::div_mod::lemma_div_pos_is_pos(total, fixed_step);
    let q = total / fixed_step;
    if q > dt {
        assert(fixed_step * q >= fixed_step * (dt + 1)) by (nonlinear_arith)
            requires
                q >= dt + 1,
                fixed_step > 0,
        ;
        assert(fixed_step * (dt + 1) >= fixed_step + dt) by (nonlinear_arith)
            requires
                fixed_step >= 1,
                dt >= 0,
        ;
    }
}

/// How the frame time is cut up does not matter: two frames of `first` and
/// `second` ticks yield together the steps of one frame of their sum, and
/// leave the same time behind. No step is skipped and no time is lost.
pub proof fn lemma_advance_is_independent_of_frame_split(
    accumulated: int,
    first: int,
    second: int,
    fixed_step: int,
)
    requires
        0 <= accumulated < fixed_step,
        0 <= first,
        0 <= second,
    ensures
        steps_due(accumulated, first, fixed_step) + steps_due(
            time_carried(accumulated, first, fixed_step),
            second,
            fixed_step,
        ) == steps_due(accumulated, first + second, fixed_step),
        time_carried(time_carried(accumulated, first, fixed_step), second, fixed_step)
            == time_carried(accumulated, first + second, fixed_step),
{
    let after_first = accumulated + first;
    let q = after_first / fixed_step;
    let r = after_first % fixed_step;
    vstd::arithmetic::div_mod::lemma_fundamental_div_mod(after_first, fixed_step);
    vstd::arithmetic::div_mod::lemma_mod_bound(after_first, fixed_step);
    let q2 = (r + second) / fixed_step;
    let r2 = (r + second) % fixed_step;
    vstd::arithmetic::div_mod::lemma_fundamental_div_mod(r + second, fixed_step);
    vstd::arithmetic::div_mod::lemma_mod_bound(r + second, fixed_step);
    assert(accumulated + first + second == (q + q2) * fixed_step + r2) by (nonlinear_arith)
        requires
            accumulated + first == fixed_step * q + r,
            r + second == fixed_step * q2 + r2,
    ;
    vstd::arithmetic::div_mod::lemma_fundamental_div_mod_converse(
        accumulated + first + second,
        fixed_step,
        q + q2,
        r2,
    );
}

/// A frame shorter than what is missing to the next step yields no step;
/// a frame of exactly one step yields exactly one and leaves the carried
/// time as it was.
pub proof fn lemma_short_and_exact_frames(accumulated: int, dt: int, fixed_step: int)
    requires
        0 <= accumulated < fixed_step,
        0 <= dt,
    ensures
        accumulated + dt < fixed_step ==> steps_due(accumulated, dt, fixed_step) == 0
            && time_carried(accumulated, dt, fixed_step) == accumulated + dt,
        dt == fixed_step ==> steps_due(accumulated, dt, fixed_step) == 1 && time_carried(
            accumulated,
            dt,
            fixed_step,
        ) == accumulated,
{
    if accumulated + dt < fixed_step {
        vstd::arithmetic::div_mod::lemma_fundamental_div_mod_converse(
            accumulated + dt,
            fixed_step,
            0,
            accumulated + dt,
        );
    }
    if dt == fixed_step {
        vstd::arithmetic::div_mod::lemma_fundamental_div_mod_converse(
            accumulated + dt,
            fixed_step,
            1,
            accumulated,
        );
    }
}

} // verus!
