use boat_controller::{
    clamp_dt, drag_factor, integrate_speed, mul_scaled, sample_input, sat_add, translate,
    velocity_along, yaw_delta, BoatControl, BoatState, KeysHeld, PlayerBoat, Vec3i, MAX_DT,
    MAX_PARAM, ONE,
};

const TENTH_SECOND: i64 = 100_000;

fn keys(forward: bool, backward: bool, turn_left: bool, turn_right: bool) -> KeysHeld {
    KeysHeld { forward, backward, turn_left, turn_right }
}

fn ahead() -> Vec3i {
    Vec3i::new(0, 0, ONE)
}

fn tick(boat: &mut PlayerBoat, held: KeysHeld, dt: i64, forward: Vec3i) {
    boat.apply_input(held);
    boat.turn(dt);
    boat.advance(dt, forward);
}

#[test]
fn acceleration_from_rest_forward_only() {
    let mut boat = PlayerBoat::spawn(BoatControl::default_config());
    tick(&mut boat, keys(true, false, false, false), TENTH_SECOND, ahead());
    assert_eq!(boat.state.current_speed, 300_000);
    assert_eq!(boat.state.target_speed, 1);
    assert!(boat.state.is_rowing);
    assert_eq!(boat.velocity.lin, Vec3i::new(0, 0, 300_000));
    assert_eq!(boat.pose.position, Vec3i::new(0, 0, 30_000));
}

#[test]
fn both_thrust_keys_decelerate_at_acceleration_rate() {
    let control = BoatControl::default_config();
    let mut boat = PlayerBoat::spawn(control);
    boat.state.current_speed = 2 * ONE;
    boat.apply_input(keys(true, true, false, false));
    assert!(boat.state.is_rowing);
    assert_eq!(boat.state.target_speed, 0);
    boat.advance(TENTH_SECOND, ahead());
    assert_eq!(boat.state.current_speed, 1_700_000);
}

#[test]
fn drag_without_input() {
    let control = BoatControl::default_config();
    assert_eq!(drag_factor(control.drag, TENTH_SECOND), 900_000);
    let state = BoatState { current_speed: 2 * ONE, target_speed: 0, is_rowing: false };
    assert_eq!(integrate_speed(&state, &control, TENTH_SECOND), 1_800_000);
    let mut boat = PlayerBoat::spawn(control);
    boat.state.current_speed = 2 * ONE;
    tick(&mut boat, keys(false, false, false, false), TENTH_SECOND, ahead());
    assert_eq!(boat.state.current_speed, 1_800_000);
}

#[test]
fn yaw_of_a_right_turn() {
    assert_eq!(yaw_delta(1, 1_500_000, TENTH_SECOND), 150_000);
    let mut boat = PlayerBoat::spawn(BoatControl::default_config());
    boat.apply_input(keys(false, false, false, true));
    assert_eq!(boat.velocity.ang_yaw, 1);
    assert_eq!(boat.turn(TENTH_SECOND), 150_000);
    assert_eq!(boat.pose.yaw, 150_000);
    boat.apply_input(keys(false, false, true, false));
    assert_eq!(boat.turn(TENTH_SECOND), -150_000);
    assert_eq!(boat.pose.yaw, 0);
}

#[test]
fn translation_along_forward() {
    let velocity = velocity_along(ahead(), 2 * ONE);
    assert_eq!(velocity, Vec3i::new(0, 0, 2 * ONE));
    let start = Vec3i::new(1, 2, 3);
    assert_eq!(translate(start, velocity, TENTH_SECOND), Vec3i::new(1, 2, 200_003));
}

#[test]
fn translation_uses_heading_after_turn() {
    let control = BoatControl::new(5 * ONE, 3 * ONE, 1_500_000, 0).unwrap();
    let mut boat = PlayerBoat::spawn(control);
    boat.state.current_speed = 2 * ONE;
    boat.turn(TENTH_SECOND);
    boat.advance(TENTH_SECOND, Vec3i::new(-ONE, 0, 0));
    assert_eq!(boat.state.current_speed, 2 * ONE);
    assert_eq!(boat.velocity.lin, Vec3i::new(-2 * ONE, 0, 0));
    assert_eq!(boat.pose.position, Vec3i::new(-200_000, 0, 0));
}

#[test]
fn speed_never_exceeds_max() {
    let control = BoatControl::default_config();
    let mut boat = PlayerBoat::spawn(control);
    for _ in 0..20 {
        tick(&mut boat, keys(true, false, false, false), MAX_DT, ahead());
        assert!(boat.state.current_speed <= control.max_speed);
    }
    assert_eq!(boat.state.current_speed, 5 * ONE);
    for _ in 0..20 {
        tick(&mut boat, keys(false, true, false, false), MAX_DT, ahead());
        assert!(boat.state.current_speed >= -control.max_speed);
    }
    assert_eq!(boat.state.current_speed, -5 * ONE);
}

#[test]
fn coasting_decays_monotonically_to_zero() {
    let control = BoatControl::default_config();
    let mut boat = PlayerBoat::spawn(control);
    boat.state.current_speed = 2 * ONE;
    let mut last = boat.state.current_speed;
    for _ in 0..400 {
        tick(&mut boat, keys(false, false, false, false), TENTH_SECOND, ahead());
        assert!(boat.state.current_speed >= 0);
        assert!(boat.state.current_speed <= last);
        last = boat.state.current_speed;
    }
    assert_eq!(last, 0);
}

#[test]
fn coasting_backward_keeps_sign() {
    let control = BoatControl::default_config();
    let state = BoatState { current_speed: -2 * ONE, target_speed: 0, is_rowing: false };
    assert_eq!(integrate_speed(&state, &control, TENTH_SECOND), -1_800_000);
}

#[test]
fn drag_factor_floors_at_zero() {
    assert_eq!(drag_factor(ONE, MAX_DT), 0);
    assert_eq!(drag_factor(3 * ONE, 500_000), 0);
    let control = BoatControl::new(5 * ONE, 3 * ONE, 1_500_000, 3 * ONE).unwrap();
    let state = BoatState { current_speed: 4 * ONE, target_speed: 0, is_rowing: false };
    assert_eq!(integrate_speed(&state, &control, 500_000), 0);
}

#[test]
fn rowing_snaps_when_target_is_near() {
    let control = BoatControl::default_config();
    let state = BoatState { current_speed: 4_900_000, target_speed: 1, is_rowing: true };
    assert_eq!(integrate_speed(&state, &control, TENTH_SECOND), 5 * ONE);
    let state = BoatState { current_speed: 0, target_speed: -1, is_rowing: true };
    assert_eq!(integrate_speed(&state, &control, TENTH_SECOND), -300_000);
}

#[test]
fn sampling_the_keys() {
    let none = sample_input(keys(false, false, false, false));
    assert_eq!((none.thrust_axis, none.turn_axis, none.is_rowing), (0, 0, false));
    let back_left = sample_input(keys(false, true, true, false));
    assert_eq!((back_left.thrust_axis, back_left.turn_axis, back_left.is_rowing), (-1, -1, true));
    let all = sample_input(keys(true, true, true, true));
    assert_eq!((all.thrust_axis, all.turn_axis, all.is_rowing), (0, 0, true));
}

#[test]
fn tick_duration_is_clamped() {
    assert_eq!(clamp_dt(-5), 0);
    assert_eq!(clamp_dt(250_000), 250_000);
    assert_eq!(clamp_dt(MAX_DT + 1), MAX_DT);
    let mut boat = PlayerBoat::spawn(BoatControl::default_config());
    boat.state.current_speed = 2 * ONE;
    tick(&mut boat, keys(false, false, false, true), -100_000, ahead());
    assert_eq!(boat.state.current_speed, 2 * ONE);
    assert_eq!(boat.pose.yaw, 0);
    assert_eq!(boat.pose.position, Vec3i::zero());
}

#[test]
fn control_constants_are_validated() {
    let c = BoatControl::default_config();
    assert_eq!((c.max_speed, c.acceleration, c.turn_speed, c.drag), (5 * ONE, 3 * ONE, 1_500_000, ONE));
    assert!(BoatControl::new(-1, 0, 0, 0).is_none());
    assert!(BoatControl::new(0, 0, 0, MAX_PARAM + 1).is_none());
    assert_eq!(BoatControl::new(1, 2, 3, 4), Some(BoatControl { max_speed: 1, acceleration: 2, turn_speed: 3, drag: 4 }));
}

#[test]
fn spawn_is_at_rest_at_origin() {
    let boat = PlayerBoat::spawn(BoatControl::default_config());
    assert_eq!(boat.pose.position, Vec3i::zero());
    assert_eq!(boat.pose.yaw, 0);
    assert_eq!(boat.velocity.lin, Vec3i::zero());
    assert_eq!(boat.velocity.ang_yaw, 0);
    assert_eq!(boat.state, BoatState { current_speed: 0, target_speed: 0, is_rowing: false });
}

#[test]
fn fixed_point_arithmetic() {
    assert_eq!(mul_scaled(-1_500_000, 1), -1);
    assert_eq!(mul_scaled(1_500_000, 1), 1);
    assert_eq!(mul_scaled(3 * ONE, TENTH_SECOND), 300_000);
    assert_eq!(sat_add(i64::MAX, 1), i64::MAX);
    assert_eq!(sat_add(i64::MIN, -1), i64::MIN);
    assert_eq!(sat_add(2, -5), -3);
}
