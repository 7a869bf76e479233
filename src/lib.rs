//! Guidance for a powered ascent and an orbital burn: the gravity-turn pitch
//! program, the throttle governor, the circularization planner, the burn
//! executor and the liftoff countdown, each loop decided one tick at a time.
//!
//! Quantities are exact integers: lengths in millimetres (metres for orbital
//! radii), speeds in mm/s, times in milliseconds, angles in millidegrees and
//! throttle in thousandths.
pub mod isqrt;
pub mod control;
pub mod connection;
pub mod liftoff;
pub mod gravity_turn;
pub mod maneuver;
