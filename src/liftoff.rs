use vstd::prelude::*;

use crate::control::LoopOutcome;

verus! {

/// Seconds counted down before ignition unless told otherwise.
pub const DEFAULT_T_MINUS: u8 = 5;

/// What one tick of the countdown does.
#[derive(Clone, Copy, Debug, PartialEq, Eq, Structural)]
pub enum LiftoffStep {
    /// Announce `T-n` and wait one second; `n` seconds are then left.
    Count(u8),
    /// Countdown over: full throttle, stabilization on, next stage.
    Ignite,
    /// Cancellation requested: stop without staging.
    Aborted,
}

/// One tick of a countdown of `t_minus` seconds with `remaining` seconds
/// left. The token is heeded only once a count has passed, so a countdown of
/// zero seconds ignites at once.
pub open spec fn liftoff_tick_of(t_minus: u8, remaining: u8, cancelled: bool) -> LiftoffStep {
    if cancelled && remaining < t_minus {
        LiftoffStep::Aborted
    } else if remaining == 0 {
        LiftoffStep::Ignite
    } else {
        LiftoffStep::Count((remaining - 1) as u8)
    }
}

/// Decide one tick of the countdown; `remaining` starts at `t_minus`.
pub fn liftoff_tick(t_minus: u8, remaining: u8, cancelled: bool) -> (r: LiftoffStep)
    ensures
        r == liftoff_tick_of(t_minus, remaining, cancelled),
{
    if cancelled && remaining < t_minus {
        LiftoffStep::Aborted
    } else if remaining == 0 {
        LiftoffStep::Ignite
    } else {
        LiftoffStep::Count(remaining - 1)
    }
}

/// The loop outcome that a countdown step reports.
pub fn step_outcome(step: LiftoffStep) -> (r: LoopOutcome)
    ensures
        r == (match step {
            LiftoffStep::Count(_) => LoopOutcome::Running,
            LiftoffStep::Ignite => LoopOutcome::Completed,
            LiftoffStep::Aborted => LoopOutcome::Aborted,
        }),
{
    match step {
        LiftoffStep::Count(_) => LoopOutcome::Running,
        LiftoffStep::Ignite => LoopOutcome::Completed,
        LiftoffStep::Aborted => LoopOutcome::Aborted,
    }
}

} // verus!
