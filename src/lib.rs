//! Motion control for a single rowing boat, in fixed-point arithmetic.
//!
//! Every physical quantity is an integer count of millionths: speeds in
//! millionths of a unit per second, positions in millionths of a unit,
//! angles in microradians, tick durations in microseconds, and the tuning
//! constants in millionths of their natural unit. Products are rescaled by
//! [`ONE`] and rounded toward zero.

mod boat;
mod control;
mod fixed;
mod laws;

pub use fixed::{clamp, mul_scaled, scaled, sat_add, saturate, Vec3i, ONE};
pub use control::{
    axis, clamp_dt, coast_speed, drag_factor, drag_factor_of, integrate_speed, next_speed,
    row_speed, sample_input, yaw_delta, yaw_delta_of, BoatControl, BoatState, ControlIntent,
    KeysHeld, MAX_DT, MAX_PARAM,
};
pub use boat::{is_direction, translate, translated, velocity_along, velocity_of, PlayerBoat, Pose, Velocity3D};
pub use laws::{coast_ticks, lemma_drag_convergence, lemma_drag_stops, lemma_speed_within_limit, magnitude};
