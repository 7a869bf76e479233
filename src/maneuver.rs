use vstd::prelude::*;
use vstd::arithmetic::div_mod::{lemma_div_denominator, lemma_div_is_ordered, lemma_div_multiples_vanish};

use crate::isqrt::{isqrt, sqrt_floor, lemma_sqrt_floor, lemma_isqrt_monotone};
use crate::control::{FULL_THROTTLE, LoopOutcome};

verus! {

/// Square millimetres per square metre: speeds squared are taken in mm²/s².
pub const MM2_PER_M2: u128 = 1_000_000;

/// The apsis at which to circularize.
#[derive(Clone, Copy, Debug, PartialEq, Eq, Structural)]
pub enum Apsis {
    Apoapsis,
    Periapsis,
}

/// A maneuver node: when it is executed (universal time, milliseconds) and
/// its delta-v along prograde, normal and radial (mm/s).
#[derive(Clone, Copy, Debug, PartialEq, Eq)]
pub struct NodeSpec {
    pub ut: i64,
    pub prograde: i64,
    pub normal: i64,
    pub radial: i64,
}

/// Square of the circular speed at radius `r` (m) around a body of
/// gravitational parameter `mu` (m³/s²), in mm²/s², rounded down: `mu / r`.
pub open spec fn circular_speed_sq(mu: int, r: int) -> int {
    mu * (MM2_PER_M2 as int) / r
}

/// Square of the speed at radius `r` on an orbit of semi-major axis `a`
/// (vis-viva: `mu * (2/r - 1/a) = mu * (2a - r) / (r a)`), in mm²/s², rounded
/// down.
pub open spec fn apsis_speed_sq(mu: int, r: int, a: int) -> int {
    mu * (MM2_PER_M2 as int) * (2 * a - r) / (r * a)
}

/// Vis-viva gives a real speed at the apsis.
pub open spec fn circularizable(r: int, a: int) -> bool {
    0 < r && 0 < a && r <= 2 * a
}

/// Circular speed minus the speed on the current orbit (mm/s), each rounded
/// down.
pub open spec fn floored_speed_gap(mu: int, r: int, a: int) -> int {
    sqrt_floor(circular_speed_sq(mu, r)) - sqrt_floor(apsis_speed_sq(mu, r, a))
}

/// Prograde delta-v (mm/s) that makes the orbit circular at radius `r`: the
/// floored speed gap, except that where rounding cancels a gap that is not
/// zero, the smallest step of the right sign (above the semi-major axis the
/// vehicle is slower than circular, below it faster).
pub open spec fn circularization_dv(mu: int, r: int, a: int) -> int {
    let gap = floored_speed_gap(mu, r, a);
    if gap == 0 && r > a {
        1
    } else if gap == 0 && r < a {
        -1
    } else {
        gap
    }
}

/// The circularization delta-v has the sign of `r - a`: prograde at an apsis
/// above the semi-major axis, retrograde below it, none on a circular orbit.
pub proof fn lemma_circularization_dv_sign(mu: int, r: int, a: int)
    requires
        0 <= mu,
        circularizable(r, a),
    ensures
        r > a ==> circularization_dv(mu, r, a) > 0,
        r < a ==> circularization_dv(mu, r, a) < 0,
        r == a ==> circularization_dv(mu, r, a) == 0,
{
    let x = mu * (MM2_PER_M2 as int);
    assert(x >= 0) by (nonlinear_arith)
        requires mu >= 0, x == mu * (MM2_PER_M2 as int);
    let ra = r * a;
    assert(ra > 0) by (nonlinear_arith)
        requires r > 0, a > 0, ra == r * a;
    // the circular speed squared is x * a / (r * a)
    lemma_div_multiples_vanish(x, a);
    assert(a * x == x * a) by (nonlinear_arith);
    lemma_div_denominator(x * a, a, r);
    assert(a * r == ra) by (nonlinear_arith)
        requires ra == r * a;
    assert(circular_speed_sq(mu, r) == (x * a) / ra);
    let c = circular_speed_sq(mu, r);
    let v = apsis_speed_sq(mu, r, a);
    assert(x * (2 * a - r) >= 0) by (nonlinear_arith)
        requires x >= 0, 2 * a - r >= 0;
    assert(x * a >= 0) by (nonlinear_arith)
        requires x >= 0, a >= 0;
    lemma_div_is_ordered(0, x * (2 * a - r), ra);
    lemma_div_is_ordered(0, x * a, ra);
    lemma_sqrt_floor(c);
    lemma_sqrt_floor(v);
    if r >= a {
        assert(x * (2 * a - r) <= x * a) by (nonlinear_arith)
            requires x >= 0, r >= a;
        lemma_div_is_ordered(x * (2 * a - r), x * a, ra);
        lemma_isqrt_monotone(v, sqrt_floor(v), c, sqrt_floor(c));
    }
    if r <= a {
        assert(x * a <= x * (2 * a - r)) by (nonlinear_arith)
            requires x >= 0, r <= a;
        lemma_div_is_ordered(x * a, x * (2 * a - r), ra);
        lemma_isqrt_monotone(c, sqrt_floor(c), v, sqrt_floor(v));
    }
}

/// The node that circularizes the orbit at an apsis of radius
/// `apsis_radius` (m), reached `time_to_apsis` ms after `now` (ms), around a
/// body of gravitational parameter `mu` (m³/s²), on an orbit of semi-major
/// axis `semi_major_axis` (m). `None` where vis-viva has no real speed there.
pub fn circularize(apsis_radius: u64, time_to_apsis: i64, now: i64, mu: u64, semi_major_axis: u64)
    -> (r: Option<NodeSpec>)
    requires
        (mu as int) * (MM2_PER_M2 as int) * (2 * (semi_major_axis as int)) <= u128::MAX,
        i64::MIN <= now + time_to_apsis <= i64::MAX,
    ensures
        r.is_some() <==> circularizable(apsis_radius as int, semi_major_axis as int),
        r.is_some() && apsis_radius > semi_major_axis ==> r.unwrap().prograde > 0,
        r.is_some() && apsis_radius < semi_major_axis ==> r.unwrap().prograde < 0,
        r.is_some() && apsis_radius == semi_major_axis ==> r.unwrap().prograde == 0,
        r.is_some() ==> r.unwrap() == (NodeSpec {
            ut: (now + time_to_apsis) as i64,
            prograde: circularization_dv(mu as int, apsis_radius as int, semi_major_axis as int)
                as i64,
            normal: 0,
            radial: 0,
        }),
{
    let rr: u128 = apsis_radius as u128;
    let a: u128 = semi_major_axis as u128;
    if apsis_radius == 0 || semi_major_axis == 0 || rr > 2 * a {
        return None;
    }
    let scaled: u128 = mu as u128 * MM2_PER_M2;
    assert(scaled * (2 * a - rr) <= scaled * (2 * a)) by (nonlinear_arith)
        requires rr <= 2 * a, scaled >= 0;
    assert(rr * a <= 0xffff_ffff_ffff_ffffu128 * 0xffff_ffff_ffff_ffffu128) by (nonlinear_arith)
        requires rr <= 0xffff_ffff_ffff_ffffu128, a <= 0xffff_ffff_ffff_ffffu128;
    assert(rr * a > 0) by (nonlinear_arith)
        requires rr > 0, a > 0;
    let circular: u64 = isqrt(scaled / rr);
    let at_apsis: u64 = isqrt(scaled * (2 * a - rr) / (rr * a));
    proof {
        let big: int = 0x10_0000_0000_0000_0000_0000;
        assert(scaled < big) by (nonlinear_arith)
            requires scaled == (mu as int) * 1_000_000, mu <= u64::MAX, big == 0x10_0000_0000_0000_0000_0000;
        // both speeds squared stay below twice `scaled`
        lemma_div_is_ordered(scaled as int, scaled as int, rr as int);
        assert(scaled as int / rr as int <= scaled as int) by (nonlinear_arith)
            requires rr >= 1, scaled >= 0;
        let n: int = scaled as int * (2 * a - rr) as int;
        let d: int = rr as int * a as int;
        assert(n <= d * (2 * scaled as int)) by (nonlinear_arith)
            requires n == scaled as int * (2 * a - rr) as int, d == rr as int * a as int, rr >= 1, a >= 1, scaled >= 0, rr <= 2 * a;
        lemma_div_is_ordered(n, d * (2 * scaled as int), d);
        lemma_div_multiples_vanish(2 * scaled as int, d);
        assert(circular < 0x800_0000_0000) by (nonlinear_arith)
            requires circular as int * circular as int <= scaled as int / rr as int, scaled as int / rr as int <= scaled as int, scaled < big, big == 0x10_0000_0000_0000_0000_0000;
        assert(at_apsis < 0x800_0000_0000) by (nonlinear_arith)
            requires at_apsis as int * at_apsis as int <= n / d, n / d <= 2 * scaled as int, scaled < big, big == 0x10_0000_0000_0000_0000_0000;
    }
    let gap: i64 = (circular as i128 - at_apsis as i128) as i64;
    let prograde: i64 = if gap == 0 && apsis_radius > semi_major_axis {
        1
    } else if gap == 0 && apsis_radius < semi_major_axis {
        -1
    } else {
        gap
    };
    proof {
        lemma_circularization_dv_sign(mu as int, apsis_radius as int, semi_major_axis as int);
    }
    Some(NodeSpec { ut: now + time_to_apsis, prograde, normal: 0, radial: 0 })
}

/// What the planner reads of the current orbit: the apsis radii (m), the
/// time left to each apsis (ms), the semi-major axis (m), the body's
/// gravitational parameter (m³/s²) and the universal time now (ms).
#[derive(Clone, Copy, Debug, PartialEq, Eq)]
pub struct OrbitReading {
    pub apoapsis: u64,
    pub periapsis: u64,
    pub time_to_apoapsis: i64,
    pub time_to_periapsis: i64,
    pub semi_major_axis: u64,
    pub mu: u64,
    pub now: i64,
}

/// Radius of the chosen apsis and the time left to reach it.
pub open spec fn apsis_of(apsis: Apsis, o: OrbitReading) -> (u64, i64) {
    match apsis {
        Apsis::Apoapsis => (o.apoapsis, o.time_to_apoapsis),
        Apsis::Periapsis => (o.periapsis, o.time_to_periapsis),
    }
}

/// The node that circularizes the orbit read in `o` at the chosen apsis.
pub fn circularize_in(apsis: Apsis, o: &OrbitReading) -> (r: Option<NodeSpec>)
    requires
        (o.mu as int) * (MM2_PER_M2 as int) * (2 * (o.semi_major_axis as int)) <= u128::MAX,
        i64::MIN <= o.now + apsis_of(apsis, *o).1 <= i64::MAX,
    ensures
        r.is_some() <==> circularizable(apsis_of(apsis, *o).0 as int, o.semi_major_axis as int),
        r.is_some() && apsis_of(apsis, *o).0 > o.semi_major_axis ==> r.unwrap().prograde > 0,
        r.is_some() && apsis_of(apsis, *o).0 < o.semi_major_axis ==> r.unwrap().prograde < 0,
        r.is_some() && apsis_of(apsis, *o).0 == o.semi_major_axis ==> r.unwrap().prograde == 0,
        r.is_some() ==> r.unwrap() == (NodeSpec {
            ut: (o.now + apsis_of(apsis, *o).1) as i64,
            prograde: circularization_dv(o.mu as int, apsis_of(apsis, *o).0 as int,
                o.semi_major_axis as int) as i64,
            normal: 0,
            radial: 0,
        }),
{
    let (radius, time_to_apsis): (u64, i64) = match apsis {
        Apsis::Apoapsis => (o.apoapsis, o.time_to_apoapsis),
        Apsis::Periapsis => (o.periapsis, o.time_to_periapsis),
    };
    circularize(radius, time_to_apsis, o.now, o.mu, o.semi_major_axis)
}

/// On a circular orbit (semi-major axis equal to the apsis radius) the speed
/// at the apsis is already the circular speed, so no delta-v is needed.
pub proof fn lemma_circular_orbit_needs_no_burn(mu: int, r: int)
    requires
        0 <= mu,
        0 < r,
    ensures
        apsis_speed_sq(mu, r, r) == circular_speed_sq(mu, r),
        circularization_dv(mu, r, r) == 0,
{
    let x = mu * (MM2_PER_M2 as int);
    assert(x >= 0) by (nonlinear_arith)
        requires mu >= 0, x == mu * (MM2_PER_M2 as int);
    assert(x * (2 * r - r) == r * x) by (nonlinear_arith);
    lemma_div_multiples_vanish(x, r);
    lemma_div_denominator(r * x, r, r);
    lemma_circularization_dv_sign(mu, r, r);
}

/// Below this remaining delta-v (mm/s, that is 100 m/s) the throttle tapers:
/// it is the remaining delta-v over 100 m/s.
pub const TAPER_DV: u64 = 100_000;

/// The burn is over once the remaining delta-v is at most this (mm/s).
pub const DONE_DV: u64 = 100;

/// The burn begins once the time to the node, less half the burn time, is
/// below this (ms).
pub const LEAD_TIME: i64 = 100;

/// Estimated burn time (ms) for `dv` (mm/s) at the acceleration of
/// `thrust` (N) on `mass` (kg): `dv / (thrust / mass)`, rounded down.
pub open spec fn burn_time(dv: int, mass: int, thrust: int) -> int {
    dv * mass / thrust
}

/// The burn time estimate; `None` when there is no thrust, so the burn would
/// never end.
pub fn estimate_burn_time(dv: u64, mass: u64, thrust: u64) -> (r: Option<u128>)
    ensures
        r.is_none() <==> thrust == 0,
        r.is_some() ==> r.unwrap() == burn_time(dv as int, mass as int, thrust as int),
{
    if thrust == 0 {
        None
    } else {
        assert(dv as u128 * mass as u128 <= 0xffff_ffff_ffff_ffffu128 * 0xffff_ffff_ffff_ffffu128)
            by (nonlinear_arith)
            requires dv <= 0xffff_ffff_ffff_ffffu128, mass <= 0xffff_ffff_ffff_ffffu128;
        Some(dv as u128 * mass as u128 / thrust as u128)
    }
}

/// Time to start burning: the time to the node (ms) less half the burn time
/// is below the lead time. With no estimate the burn is owed at once.
pub open spec fn burn_due(time_to_node: int, burn: Option<u128>) -> bool {
    match burn {
        None => true,
        Some(b) => 2 * time_to_node - b < 2 * LEAD_TIME,
    }
}

/// Throttle (thousandths) while the burn is due: full, tapering in
/// proportion to the remaining delta-v below 100 m/s.
pub open spec fn burn_throttle(dv: int) -> int {
    if dv < TAPER_DV as int {
        dv / 100
    } else {
        1000
    }
}

/// What one tick of the burn commands: the throttle (thousandths) and
/// whether the loop goes on.
#[derive(Clone, Copy, Debug, PartialEq, Eq)]
pub struct BurnCommand {
    pub throttle: u32,
    pub outcome: LoopOutcome,
}

/// One reading of the node during a burn: remaining delta-v (mm/s), time to
/// the node (ms), and whether cancellation was requested.
#[derive(Clone, Copy, Debug, PartialEq, Eq)]
pub struct BurnSample {
    pub remaining_dv: u64,
    pub time_to_node: i64,
    pub cancelled: bool,
}

/// One tick of the burn, from the throttle in force, the burn time estimate
/// and the sample just read.
pub open spec fn burn_tick_of(last_throttle: u32, burn: Option<u128>, s: BurnSample) -> BurnCommand {
    if s.cancelled {
        BurnCommand { throttle: 0, outcome: LoopOutcome::Aborted }
    } else if s.remaining_dv <= DONE_DV {
        BurnCommand { throttle: 0, outcome: LoopOutcome::Completed }
    } else if burn_due(s.time_to_node as int, burn) {
        BurnCommand { throttle: burn_throttle(s.remaining_dv as int) as u32, outcome: LoopOutcome::Running }
    } else {
        BurnCommand { throttle: last_throttle, outcome: LoopOutcome::Running }
    }
}

/// Decide one tick of the burn. The throttle in force is zero before the
/// first tick.
pub fn burn_tick(last_throttle: u32, burn: Option<u128>, s: BurnSample) -> (r: BurnCommand)
    requires
        last_throttle <= FULL_THROTTLE,
    ensures
        r == burn_tick_of(last_throttle, burn, s),
        r.throttle <= FULL_THROTTLE,
{
    if s.cancelled {
        return BurnCommand { throttle: 0, outcome: LoopOutcome::Aborted };
    }
    if s.remaining_dv <= DONE_DV {
        return BurnCommand { throttle: 0, outcome: LoopOutcome::Completed };
    }
    let due: bool = match burn {
        None => true,
        Some(b) => {
            let twice: i128 = 2 * s.time_to_node as i128 - 2 * LEAD_TIME as i128;
            twice < 0 || (twice as u128) < b
        },
    };
    if due {
        let throttle: u32 = if s.remaining_dv < TAPER_DV {
            (s.remaining_dv / 100) as u32
        } else {
            FULL_THROTTLE
        };
        BurnCommand { throttle, outcome: LoopOutcome::Running }
    } else {
        BurnCommand { throttle: last_throttle, outcome: LoopOutcome::Running }
    }
}

/// The burn loop over a run of samples: ticks until the loop stops or the
/// samples run out.
pub open spec fn burn_run(last_throttle: u32, burn: Option<u128>, samples: Seq<BurnSample>) -> BurnCommand
    decreases samples.len(),
{
    if samples.len() == 0 {
        BurnCommand { throttle: last_throttle, outcome: LoopOutcome::Running }
    } else {
        let c = burn_tick_of(last_throttle, burn, samples[0]);
        if c.outcome != LoopOutcome::Running {
            c
        } else {
            burn_run(c.throttle, burn, samples.drop_first())
        }
    }
}

/// A burn whose remaining delta-v falls to the completion threshold by its
/// last sample, with no cancellation, completes with the throttle at zero.
pub proof fn lemma_burn_completes(last_throttle: u32, burn: Option<u128>, samples: Seq<BurnSample>)
    requires
        samples.len() > 0,
        samples.last().remaining_dv <= DONE_DV,
        forall|i: int| 0 <= i < samples.len() ==> !(#[trigger] samples[i]).cancelled,
    ensures
        burn_run(last_throttle, burn, samples) == (BurnCommand {
            throttle: 0,
            outcome: LoopOutcome::Completed,
        }),
    decreases samples.len(),
{
    let c = burn_tick_of(last_throttle, burn, samples[0]);
    assert(!samples[0].cancelled);
    if c.outcome == LoopOutcome::Running {
        assert(samples.len() > 1);
        let rest = samples.drop_first();
        assert(rest.last() == samples.last());
        assert forall|i: int| 0 <= i < rest.len() implies !(#[trigger] rest[i]).cancelled by {
            assert(rest[i] == samples[i + 1]);
        }
        lemma_burn_completes(c.throttle, burn, rest);
    }
}

/// A cancelled burn stops at the sample that carries the request, or
/// earlier, with the throttle at zero.
pub proof fn lemma_burn_cancel_stops(last_throttle: u32, burn: Option<u128>, samples: Seq<BurnSample>, k: int)
    requires
        0 <= k < samples.len(),
        samples[k].cancelled,
    ensures
        burn_run(last_throttle, burn, samples).outcome != LoopOutcome::Running,
        burn_run(last_throttle, burn, samples).throttle == 0,
    decreases samples.len(),
{
    let c = burn_tick_of(last_throttle, burn, samples[0]);
    if c.outcome == LoopOutcome::Running {
        assert(k > 0);
        let rest = samples.drop_first();
        assert(rest[k - 1] == samples[k]);
        lemma_burn_cancel_stops(c.throttle, burn, rest, k - 1);
    }
}

} // verus!
