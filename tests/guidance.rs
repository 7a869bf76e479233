use ascent_guidance::connection::{ConnectionBuilder, DEFAULT_RPC_PORT, DEFAULT_STREAM_PORT};
use ascent_guidance::control::{LoopOutcome, FULL_THROTTLE, HALF_THROTTLE};
use ascent_guidance::gravity_turn::{govern_throttle, pitch_at, turn_tick, TurnProfile, VERTICAL_PITCH};
use ascent_guidance::isqrt::isqrt;
use ascent_guidance::liftoff::{liftoff_tick, step_outcome, LiftoffStep, DEFAULT_T_MINUS};
use ascent_guidance::maneuver::{
    burn_tick, circularize, circularize_in, estimate_burn_time, Apsis, BurnCommand, BurnSample,
    NodeSpec, OrbitReading,
};

const KERBIN_MU: u64 = 3_531_600_000_000;

fn sample(remaining_dv: u64, time_to_node: i64, cancelled: bool) -> BurnSample {
    BurnSample { remaining_dv, time_to_node, cancelled }
}

#[test]
fn isqrt_exact_and_between_squares() {
    assert_eq!(isqrt(0), 0);
    assert_eq!(isqrt(1), 1);
    assert_eq!(isqrt(15), 3);
    assert_eq!(isqrt(16), 4);
    assert_eq!(isqrt(u128::MAX), u64::MAX);
}

#[test]
fn pitch_midway_through_turn() {
    // 400 m to 80 km, at 40.2 km: progress one half, 90 - 90 * sqrt(0.75) degrees
    assert_eq!(pitch_at(400_000, 80_000_000, 40_200_000), 12_057);
}

#[test]
fn pitch_at_ends_of_turn() {
    assert_eq!(pitch_at(400_000, 80_000_000, 400_000), VERTICAL_PITCH);
    assert_eq!(pitch_at(400_000, 80_000_000, 80_000_000), 0);
}

#[test]
fn pitch_clamped_outside_turn() {
    assert_eq!(pitch_at(400_000, 80_000_000, -5), VERTICAL_PITCH);
    assert_eq!(pitch_at(400_000, 80_000_000, 95_000_000), 0);
}

#[test]
fn pitch_never_rises_along_turn() {
    let mut last = VERTICAL_PITCH;
    let mut alt: i64 = 0;
    while alt <= 81_000_000 {
        let p = pitch_at(400_000, 80_000_000, alt);
        assert!(p <= last);
        last = p;
        alt += 250_000;
    }
}

#[test]
fn governor_bands() {
    assert_eq!(govern_throttle(59_999_999, 80_000_000), None);
    assert_eq!(govern_throttle(60_000_000, 80_000_000), Some(HALF_THROTTLE));
    assert_eq!(govern_throttle(79_999_999, 80_000_000), Some(HALF_THROTTLE));
    assert_eq!(govern_throttle(80_000_000, 80_000_000), Some(0));
    assert_eq!(govern_throttle(90_000_000, 80_000_000), Some(0));
}

#[test]
fn turn_profile_defaults_and_setters() {
    let p = TurnProfile::new();
    assert_eq!(p.heading, 90_000);
    assert_eq!(p.initial_altitude, 400_000);
    assert_eq!(p.final_apoapsis, 80_000_000);
    let q = p.direction(45_000).grav_curve_initial_altitude(1_000_000).final_apoastro(100_000_000);
    assert_eq!(q, TurnProfile { heading: 45_000, initial_altitude: 1_000_000, final_apoapsis: 100_000_000 });
}

#[test]
fn turn_tick_below_band_keeps_pitch() {
    let p = TurnProfile::new();
    let c = turn_tick(&p, VERTICAL_PITCH, 100_000, 0, false);
    assert_eq!(c.pitch, None);
    assert_eq!(c.throttle, None);
    assert_eq!(c.outcome, LoopOutcome::Running);
}

#[test]
fn turn_tick_in_band_commands_pitch_and_governor() {
    let p = TurnProfile::new();
    let c = turn_tick(&p, VERTICAL_PITCH, 40_200_000, 70_000_000, false);
    assert_eq!(c.pitch, Some(12_057));
    assert_eq!(c.throttle, Some(HALF_THROTTLE));
    assert_eq!(c.outcome, LoopOutcome::Running);
}

#[test]
fn turn_tick_completes_near_horizontal() {
    let p = TurnProfile::new();
    let c = turn_tick(&p, 5_000, 79_999_000, 81_000_000, false);
    assert_eq!(c.pitch, Some(0));
    assert_eq!(c.throttle, Some(0));
    assert_eq!(c.outcome, LoopOutcome::Completed);
}

#[test]
fn turn_tick_cancelled_aborts_with_throttle_zero() {
    let p = TurnProfile::new();
    let c = turn_tick(&p, VERTICAL_PITCH, 40_200_000, 10_000, true);
    assert_eq!(c.pitch, None);
    assert_eq!(c.throttle, Some(0));
    assert_eq!(c.outcome, LoopOutcome::Aborted);
}

#[test]
fn circular_orbit_needs_no_burn() {
    let n = circularize(700_000, 30_000, 1_000_000, KERBIN_MU, 700_000).unwrap();
    assert_eq!(n, NodeSpec { ut: 1_030_000, prograde: 0, normal: 0, radial: 0 });
}

#[test]
fn circularize_at_apoapsis_and_periapsis() {
    let o = OrbitReading {
        apoapsis: 800_000,
        periapsis: 700_000,
        time_to_apoapsis: 600_000,
        time_to_periapsis: 1_500_000,
        semi_major_axis: 750_000,
        mu: KERBIN_MU,
        now: 10_000,
    };
    let at_apo = circularize_in(Apsis::Apoapsis, &o).unwrap();
    assert_eq!(at_apo, NodeSpec { ut: 610_000, prograde: 71_244, normal: 0, radial: 0 });
    let at_peri = circularize_in(Apsis::Periapsis, &o).unwrap();
    assert_eq!(at_peri, NodeSpec { ut: 1_510_000, prograde: -73_663, normal: 0, radial: 0 });
}

#[test]
fn circularize_without_real_speed() {
    assert_eq!(circularize(0, 0, 0, KERBIN_MU, 700_000), None);
    assert_eq!(circularize(700_000, 0, 0, KERBIN_MU, 0), None);
    assert_eq!(circularize(1_500_001, 0, 0, KERBIN_MU, 750_000), None);
    assert!(circularize(1_500_000, 0, 0, KERBIN_MU, 750_000).is_some());
}

#[test]
fn circularize_keeps_sign_of_small_gap() {
    // each speed rounds to 31 mm/s: the gap keeps the sign of r - a
    let above = circularize(1001, 0, 0, 1, 1000).unwrap();
    assert_eq!(above.prograde, 1);
    let below = circularize(999, 0, 0, 1, 1000).unwrap();
    assert_eq!(below.prograde, -1);
    let circular = circularize(1000, 0, 0, 1, 1000).unwrap();
    assert_eq!(circular.prograde, 0);
}

#[test]
fn burn_time_estimate() {
    // 1000 m/s at 200 kN on 10 t: 20 m/s², 50 s
    assert_eq!(estimate_burn_time(1_000_000, 10_000, 200_000), Some(50_000));
    assert_eq!(estimate_burn_time(1_000_000, 10_000, 0), None);
}

#[test]
fn burn_taper_below_hundred_metres_per_second() {
    let c = burn_tick(FULL_THROTTLE, Some(10_000), sample(50_000, 0, false));
    assert_eq!(c, BurnCommand { throttle: 500, outcome: LoopOutcome::Running });
}

#[test]
fn burn_full_throttle_when_due() {
    let c = burn_tick(0, Some(10_000), sample(300_000, 5_000, false));
    assert_eq!(c, BurnCommand { throttle: FULL_THROTTLE, outcome: LoopOutcome::Running });
}

#[test]
fn burn_waits_for_node() {
    // 5.1 s to the node less half of a 10 s burn is 0.1 s: not yet due
    let c = burn_tick(0, Some(10_000), sample(300_000, 5_100, false));
    assert_eq!(c, BurnCommand { throttle: 0, outcome: LoopOutcome::Running });
    let c = burn_tick(0, Some(10_000), sample(300_000, 5_099, false));
    assert_eq!(c.throttle, FULL_THROTTLE);
    let c = burn_tick(0, None, sample(300_000, 1_000_000, false));
    assert_eq!(c.throttle, FULL_THROTTLE);
}

#[test]
fn burn_completes_with_throttle_zero() {
    let dvs: [u64; 5] = [150_000, 80_000, 20_000, 1_000, 100];
    let mut throttle: u32 = 0;
    let mut outcome = LoopOutcome::Running;
    let mut ticks: usize = 0;
    for dv in dvs {
        let c = burn_tick(throttle, Some(60_000), sample(dv, -100, false));
        throttle = c.throttle;
        outcome = c.outcome;
        ticks += 1;
        if outcome != LoopOutcome::Running {
            break;
        }
    }
    assert_eq!(ticks, 5);
    assert_eq!(outcome, LoopOutcome::Completed);
    assert_eq!(throttle, 0);
}

#[test]
fn burn_cancelled_aborts_with_throttle_zero() {
    let c = burn_tick(FULL_THROTTLE, Some(60_000), sample(300_000, -100, true));
    assert_eq!(c, BurnCommand { throttle: 0, outcome: LoopOutcome::Aborted });
}

#[test]
fn liftoff_counts_down_then_ignites() {
    let mut remaining = DEFAULT_T_MINUS;
    let mut announced: Vec<u8> = Vec::new();
    loop {
        match liftoff_tick(DEFAULT_T_MINUS, remaining, false) {
            LiftoffStep::Count(n) => {
                announced.push(n);
                remaining = n;
            }
            step => {
                assert_eq!(step, LiftoffStep::Ignite);
                assert_eq!(step_outcome(step), LoopOutcome::Completed);
                break;
            }
        }
    }
    assert_eq!(announced, vec![4, 3, 2, 1, 0]);
}

#[test]
fn liftoff_cancelled_aborts_after_a_count() {
    assert_eq!(liftoff_tick(5, 3, true), LiftoffStep::Aborted);
    assert_eq!(liftoff_tick(5, 0, true), LiftoffStep::Aborted);
    assert_eq!(step_outcome(LiftoffStep::Aborted), LoopOutcome::Aborted);
}

#[test]
fn liftoff_first_tick_does_not_poll() {
    assert_eq!(liftoff_tick(5, 5, true), LiftoffStep::Count(4));
}

#[test]
fn liftoff_zero_countdown_ignites_at_once() {
    assert_eq!(liftoff_tick(0, 0, true), LiftoffStep::Ignite);
    assert_eq!(liftoff_tick(0, 0, false), LiftoffStep::Ignite);
}

#[test]
fn connection_builder_defaults_and_setters() {
    let b = ConnectionBuilder::new();
    assert_eq!(b.conn_name, "");
    assert_eq!(b.ip_addr, "127.0.0.1");
    assert_eq!(b.rpc_port, DEFAULT_RPC_PORT);
    assert_eq!(b.stream_port, DEFAULT_STREAM_PORT);
    let b = b.conn_name("ascent".to_string()).ip_addr("10.0.0.2".to_string());
    assert_eq!(b.conn_name, "ascent");
    assert_eq!(b.ip_addr, "10.0.0.2");
    assert_eq!(b.rpc_port, 50000);
    assert_eq!(b.stream_port, 50001);
}
