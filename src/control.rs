use vstd::prelude::*;

use crate::gravity_turn::{TurnProfile, turn_tick_of};
use crate::liftoff::{LiftoffStep, liftoff_tick_of};
use crate::maneuver::{BurnCommand, BurnSample, burn_tick_of};

verus! {

/// Full throttle, in thousandths.
pub const FULL_THROTTLE: u32 = 1000;

/// Half throttle, in thousandths.
pub const HALF_THROTTLE: u32 = 500;

/// Where a control loop stands after a tick.
#[derive(Clone, Copy, Debug, PartialEq, Eq, Structural)]
pub enum LoopOutcome {
    /// Keep polling.
    Running,
    /// The loop reached its goal; the vehicle is released.
    Completed,
    /// The loop saw the cancellation token; the vehicle is released.
    Aborted,
}

/// Every loop stops on the tick at which it sees the cancellation token:
/// the countdown (once a count has passed) aborts without staging, the turn
/// aborts with no pitch commanded and the throttle at zero, and the burn
/// aborts with the throttle at zero (the vehicle is released on abort).
pub proof fn lemma_cancellation_stops_every_loop(
    p: TurnProfile,
    last_pitch: int,
    altitude: int,
    apoapsis: int,
    last_throttle: u32,
    burn: Option<u128>,
    s: BurnSample,
    t_minus: u8,
    remaining: u8,
)
    requires
        s.cancelled,
        remaining < t_minus,
    ensures
        liftoff_tick_of(t_minus, remaining, true) == LiftoffStep::Aborted,
        turn_tick_of(p, last_pitch, altitude, apoapsis, true).pitch == None::<u32>,
        turn_tick_of(p, last_pitch, altitude, apoapsis, true).outcome == LoopOutcome::Aborted,
        turn_tick_of(p, last_pitch, altitude, apoapsis, true).throttle == Some(0u32),
        burn_tick_of(last_throttle, burn, s) == (BurnCommand {
            throttle: 0,
            outcome: LoopOutcome::Aborted,
        }),
{
}

} // verus!
