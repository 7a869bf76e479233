use vstd::prelude::*;
use vstd::arithmetic::div_mod::{lemma_div_is_ordered, lemma_div_by_self};

use crate::isqrt::{isqrt, sqrt_floor, lemma_sqrt_floor, lemma_isqrt_monotone, lemma_sqrt_floor_of_square};
use crate::control::{HALF_THROTTLE, LoopOutcome};

verus! {

/// A vertical attitude, in millidegrees.
pub const VERTICAL_PITCH: u32 = 90000;

/// At or below this pitch (millidegrees) the turn is over.
pub const END_PITCH: u32 = 1000;

/// The altitude clamped to the span of the turn.
pub open spec fn clamp_altitude(initial: int, fin: int, altitude: int) -> int {
    if altitude < initial {
        initial
    } else if altitude > fin {
        fin
    } else {
        altitude
    }
}

/// Pitch of the gravity turn, in millidegrees, at `altitude` (all lengths in
/// the same unit).
///
/// With span `d = fin - initial` and progress `p = (altitude - initial) / d`,
/// clamped to `[0, 1]`, the profile is `90 - 90 * sqrt(1 - (p - 1)^2)`
/// degrees. Writing `q = fin - altitude = (1 - p) * d`, the root is
/// `sqrt(d^2 - q^2) / d`, which is taken here as an integer root and the
/// result rounded down.
pub open spec fn turn_pitch(initial: int, fin: int, altitude: int) -> int {
    let d = fin - initial;
    let q = fin - clamp_altitude(initial, fin, altitude);
    (VERTICAL_PITCH as int) * (d - sqrt_floor(d * d - q * q)) / d
}

/// The commanded pitch of the gravity turn, in millidegrees.
pub fn pitch_at(initial_altitude: i64, final_apoapsis: i64, altitude: i64) -> (r: u32)
    requires
        initial_altitude < final_apoapsis,
    ensures
        r == turn_pitch(initial_altitude as int, final_apoapsis as int, altitude as int),
        r <= VERTICAL_PITCH,
{
    let clamped: i64 = if altitude < initial_altitude {
        initial_altitude
    } else if altitude > final_apoapsis {
        final_apoapsis
    } else {
        altitude
    };
    let d: u128 = (final_apoapsis as i128 - initial_altitude as i128) as u128;
    let q: u128 = (final_apoapsis as i128 - clamped as i128) as u128;
    assert(q <= d);
    assert(q * q <= d * d) by (nonlinear_arith)
        requires q <= d;
    assert(d * d <= 0xffff_ffff_ffff_ffffu128 * 0xffff_ffff_ffff_ffffu128) by (nonlinear_arith)
        requires d <= 0xffff_ffff_ffff_ffffu128;
    let root: u64 = isqrt(d * d - q * q);
    proof {
        lemma_sqrt_floor_of_square(d as int);
        lemma_isqrt_monotone((d * d - q * q) as int, root as int, (d * d) as int, d as int);
    }
    let rest: u128 = d - root as u128;
    assert(rest <= d);
    assert(90000 * rest <= 90000 * d) by (nonlinear_arith)
        requires rest <= d;
    let r: u128 = 90000 * rest / d;
    proof {
        lemma_div_is_ordered((90000 * rest) as int, (90000 * d) as int, d as int);
        assert((90000 * d) as int / (d as int) == 90000) by (nonlinear_arith)
            requires d > 0;
    }
    r as u32
}

/// The turn starts vertical: at (or below) the initial altitude the pitch is
/// ninety degrees.
pub proof fn lemma_pitch_starts_vertical(initial: int, fin: int, altitude: int)
    requires
        initial < fin,
        altitude <= initial,
    ensures
        turn_pitch(initial, fin, altitude) == VERTICAL_PITCH as int,
{
    let d = fin - initial;
    assert(d * d - d * d == 0);
    lemma_sqrt_floor_of_square(0);
    assert((VERTICAL_PITCH as int) * d / d == VERTICAL_PITCH as int) by (nonlinear_arith)
        requires d > 0;
}

/// The turn ends horizontal: at (or above) the final apoapsis the pitch is
/// zero.
pub proof fn lemma_pitch_ends_horizontal(initial: int, fin: int, altitude: int)
    requires
        initial < fin,
        altitude >= fin,
    ensures
        turn_pitch(initial, fin, altitude) == 0,
{
    let d = fin - initial;
    lemma_sqrt_floor_of_square(d);
    assert(d * d - 0 * 0 == d * d);
}

/// The pitch never rises as the altitude grows.
pub proof fn lemma_pitch_non_increasing(initial: int, fin: int, a1: int, a2: int)
    requires
        initial < fin,
        a1 <= a2,
    ensures
        turn_pitch(initial, fin, a2) <= turn_pitch(initial, fin, a1),
{
    let d = fin - initial;
    let q1 = fin - clamp_altitude(initial, fin, a1);
    let q2 = fin - clamp_altitude(initial, fin, a2);
    assert(0 <= q2 <= q1 <= d);
    assert(d * d - q1 * q1 <= d * d - q2 * q2 && 0 <= d * d - q1 * q1) by (nonlinear_arith)
        requires 0 <= q2 <= q1 <= d;
    lemma_sqrt_floor(d * d - q1 * q1);
    lemma_sqrt_floor(d * d - q2 * q2);
    lemma_isqrt_monotone(d * d - q1 * q1, sqrt_floor(d * d - q1 * q1), d * d - q2 * q2,
        sqrt_floor(d * d - q2 * q2));
    let n2 = (VERTICAL_PITCH as int) * (d - sqrt_floor(d * d - q2 * q2));
    let n1 = (VERTICAL_PITCH as int) * (d - sqrt_floor(d * d - q1 * q1));
    assert(n2 <= n1) by (nonlinear_arith)
        requires
            sqrt_floor(d * d - q1 * q1) <= sqrt_floor(d * d - q2 * q2),
            n2 == (VERTICAL_PITCH as int) * (d - sqrt_floor(d * d - q2 * q2)),
            n1 == (VERTICAL_PITCH as int) * (d - sqrt_floor(d * d - q1 * q1)),
    ;
    lemma_div_is_ordered(n2, n1, d);
}

/// What the throttle governor commands for the current apoapsis: nothing
/// below three quarters of the target, half throttle from there, and a
/// cut-off once the target is reached.
pub open spec fn governor(apoapsis: int, target: int) -> Option<u32> {
    if apoapsis >= target {
        Some(0)
    } else if 4 * apoapsis >= 3 * target {
        Some(HALF_THROTTLE)
    } else {
        None
    }
}

/// The throttle governor of the ascent, in thousandths; `None` leaves the
/// throttle as it is.
pub fn govern_throttle(apoapsis: i64, target_apoapsis: i64) -> (r: Option<u32>)
    ensures
        r == governor(apoapsis as int, target_apoapsis as int),
{
    let half: bool = 4 * (apoapsis as i128) >= 3 * (target_apoapsis as i128);
    if apoapsis >= target_apoapsis {
        Some(0)
    } else if half {
        Some(HALF_THROTTLE)
    } else {
        None
    }
}

/// Shape of the gravity turn: the heading to fly (millidegrees), the altitude
/// at which the turn begins and the apoapsis it aims for (millimetres).
#[derive(Clone, Copy, Debug, PartialEq, Eq)]
pub struct TurnProfile {
    pub heading: i32,
    pub initial_altitude: i64,
    pub final_apoapsis: i64,
}

impl TurnProfile {
    /// The turn spans a non-empty band of altitudes.
    pub open spec fn wf(&self) -> bool {
        self.initial_altitude < self.final_apoapsis
    }

    /// Heading ninety degrees, turn from 400 m up to an 80 km apoapsis.
    pub fn new() -> (r: TurnProfile)
        ensures
            r.heading == 90000,
            r.initial_altitude == 400_000,
            r.final_apoapsis == 80_000_000,
            r.wf(),
    {
        TurnProfile { heading: 90000, initial_altitude: 400_000, final_apoapsis: 80_000_000 }
    }

    /// The same profile with another heading.
    pub fn direction(self, heading: i32) -> (r: TurnProfile)
        ensures
            r == (TurnProfile { heading, ..self }),
    {
        TurnProfile { heading, ..self }
    }

    /// The same profile with another altitude at which the turn begins.
    pub fn grav_curve_initial_altitude(self, initial_altitude: i64) -> (r: TurnProfile)
        ensures
            r == (TurnProfile { initial_altitude, ..self }),
    {
        TurnProfile { initial_altitude, ..self }
    }

    /// The same profile with another target apoapsis.
    pub fn final_apoastro(self, final_apoapsis: i64) -> (r: TurnProfile)
        ensures
            r == (TurnProfile { final_apoapsis, ..self }),
    {
        TurnProfile { final_apoapsis, ..self }
    }
}

/// What one tick of the gravity turn commands: a new pitch (millidegrees),
/// a new throttle (thousandths), and whether the loop goes on.
#[derive(Clone, Copy, Debug, PartialEq, Eq)]
pub struct TurnCommand {
    pub pitch: Option<u32>,
    pub throttle: Option<u32>,
    pub outcome: LoopOutcome,
}

/// The altitude lies strictly inside the band of the turn.
pub open spec fn in_turn_band(p: TurnProfile, altitude: int) -> bool {
    p.initial_altitude < altitude < p.final_apoapsis
}

/// One tick of the gravity turn, from the pitch last commanded and the
/// altitude and apoapsis just read. A cancelled tick commands no pitch.
pub open spec fn turn_tick_of(
    p: TurnProfile,
    last_pitch: int,
    altitude: int,
    apoapsis: int,
    cancelled: bool,
) -> TurnCommand {
    let banded = in_turn_band(p, altitude);
    let pitch = turn_pitch(p.initial_altitude as int, p.final_apoapsis as int, altitude);
    let current = if banded { pitch } else { last_pitch };
    TurnCommand {
        pitch: if banded && !cancelled { Some(pitch as u32) } else { None },
        throttle: if cancelled { Some(0) } else { governor(apoapsis, p.final_apoapsis as int) },
        outcome: if cancelled {
            LoopOutcome::Aborted
        } else if current <= END_PITCH as int {
            LoopOutcome::Completed
        } else {
            LoopOutcome::Running
        },
    }
}

/// Decide one tick of the gravity turn. `last_pitch` is the pitch in force
/// (ninety degrees before the first tick).
pub fn turn_tick(p: &TurnProfile, last_pitch: u32, altitude: i64, apoapsis: i64, cancelled: bool) -> (r:
    TurnCommand)
    requires
        p.wf(),
    ensures
        r == turn_tick_of(*p, last_pitch as int, altitude as int, apoapsis as int, cancelled),
{
    let banded: bool = p.initial_altitude < altitude && altitude < p.final_apoapsis;
    let mut current: u32 = last_pitch;
    let mut pitch: Option<u32> = None;
    if banded {
        current = pitch_at(p.initial_altitude, p.final_apoapsis, altitude);
        if !cancelled {
            pitch = Some(current);
        }
    }
    let throttle: Option<u32> = if cancelled {
        Some(0)
    } else {
        govern_throttle(apoapsis, p.final_apoapsis)
    };
    let outcome: LoopOutcome = if cancelled {
        LoopOutcome::Aborted
    } else if current <= END_PITCH {
        LoopOutcome::Completed
    } else {
        LoopOutcome::Running
    };
    TurnCommand { pitch, throttle, outcome }
}

} // verus!
