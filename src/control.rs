use vstd::prelude::*;

use crate::fixed::{clamp, mul_scaled, scaled, MAX_PRODUCT, ONE};

verus! {

/// The longest tick that is integrated at once, in microseconds.
pub const MAX_DT: i64 = 1_000_000;

/// The largest value of a tuning constant (a million units).
pub const MAX_PARAM: i64 = 1_000_000_000_000;

/// Which of the four logical keys are held during a tick.
#[derive(Clone, Copy, Debug, PartialEq, Eq)]
pub struct KeysHeld {
    pub forward: bool,
    pub backward: bool,
    pub turn_left: bool,
    pub turn_right: bool,
}

/// The control intent derived from the held keys.
#[derive(Clone, Copy, Debug, PartialEq, Eq)]
pub struct ControlIntent {
    /// `+1` forward, `-1` backward, `0` for neither or both.
    pub thrust_axis: i64,
    /// `+1` right, `-1` left, `0` for neither or both.
    pub turn_axis: i64,
    /// Forward or backward is held, even when the two cancel.
    pub is_rowing: bool,
}

/// `+1` for the positive key, `-1` for the negative one, summed.
pub open spec fn axis(positive: bool, negative: bool) -> int {
    (if positive { 1int } else { 0int }) - (if negative { 1int } else { 0int })
}

/// Tuning constants of a boat, fixed at creation.
#[derive(Clone, Copy, Debug, PartialEq, Eq)]
pub struct BoatControl {
    /// Largest speed magnitude, in millionths of a unit per second.
    pub max_speed: i64,
    /// Speed change per second while rowing, in millionths of a unit per second squared.
    pub acceleration: i64,
    /// Turning rate at full turn input, in microradians per second.
    pub turn_speed: i64,
    /// Fraction of speed lost per second while coasting, in millionths.
    pub drag: i64,
}

/// The speed-related part of a boat's state.
#[derive(Clone, Copy, Debug, PartialEq, Eq)]
pub struct BoatState {
    /// Signed speed along the forward direction.
    pub current_speed: i64,
    /// Thrust intent in `[-1, 1]`, before scaling by `max_speed`.
    pub target_speed: i64,
    /// Rowing (accelerating toward the target) rather than coasting.
    pub is_rowing: bool,
}

impl BoatControl {
    /// Every constant lies in `[0, MAX_PARAM]`.
    pub open spec fn wf(self) -> bool {
        0 <= self.max_speed <= MAX_PARAM && 0 <= self.acceleration <= MAX_PARAM && 0
            <= self.turn_speed <= MAX_PARAM && 0 <= self.drag <= MAX_PARAM
    }

    /// The spawn-time configuration: top speed 5, acceleration 3, turn rate
    /// 1.5 rad/s and drag 1 per second.
    pub fn default_config() -> (r: BoatControl)
        ensures
            r.wf(),
            r.max_speed == 5 * ONE,
            r.acceleration == 3 * ONE,
            r.turn_speed == 3 * ONE / 2,
            r.drag == ONE,
    {
        BoatControl {
            max_speed: 5 * ONE,
            acceleration: 3 * ONE,
            turn_speed: 3 * ONE / 2,
            drag: ONE,
        }
    }

    /// Constants from their values; `None` when one lies outside `[0, MAX_PARAM]`.
    pub fn new(max_speed: i64, acceleration: i64, turn_speed: i64, drag: i64) -> (r: Option<
        BoatControl,
    >)
        ensures
            r is Some <==> (0 <= max_speed <= MAX_PARAM && 0 <= acceleration <= MAX_PARAM && 0
                <= turn_speed <= MAX_PARAM && 0 <= drag <= MAX_PARAM),
            r matches Some(c) ==> c.wf() && c.max_speed == max_speed && c.acceleration
                == acceleration && c.turn_speed == turn_speed && c.drag == drag,
    {
        if 0 <= max_speed && max_speed <= MAX_PARAM && 0 <= acceleration && acceleration
            <= MAX_PARAM && 0 <= turn_speed && turn_speed <= MAX_PARAM && 0 <= drag && drag
            <= MAX_PARAM {
            Some(BoatControl { max_speed, acceleration, turn_speed, drag })
        } else {
            None
        }
    }
}

impl BoatState {
    /// The speed is within the limit and the target within `[-1, 1]`.
    pub open spec fn wf(self, control: BoatControl) -> bool {
        -control.max_speed <= self.current_speed <= control.max_speed && -1 <= self.target_speed
            <= 1
    }

    /// The state at spawn: at rest, no intent.
    pub fn at_rest() -> (r: BoatState)
        ensures
            r.current_speed == 0 && r.target_speed == 0 && !r.is_rowing,
    {
        BoatState { current_speed: 0, target_speed: 0, is_rowing: false }
    }
}

/// The multiplicative speed attenuation of one coasting tick: `max(1 - drag * dt, 0)`.
pub open spec fn drag_factor_of(drag: int, dt: int) -> int {
    let f = ONE - scaled(drag, dt);
    if f < 0 {
        0
    } else {
        f
    }
}

/// The speed after one coasting tick.
pub open spec fn coast_speed(speed: int, control: BoatControl, dt: int) -> int {
    clamp(
        scaled(speed, drag_factor_of(control.drag as int, dt)),
        -control.max_speed,
        control.max_speed as int,
    )
}

/// The speed after one rowing tick: a step toward `target * max_speed` of at
/// most `acceleration * dt`.
pub open spec fn row_speed(speed: int, target: int, control: BoatControl, dt: int) -> int {
    let desired = target * control.max_speed;
    let max_delta = scaled(control.acceleration as int, dt);
    clamp(
        speed + clamp(desired - speed, -max_delta, max_delta),
        -control.max_speed,
        control.max_speed as int,
    )
}

/// The speed at the end of a tick of duration `dt`.
pub open spec fn next_speed(state: BoatState, control: BoatControl, dt: int) -> int {
    if state.is_rowing {
        row_speed(state.current_speed as int, state.target_speed as int, control, dt)
    } else {
        coast_speed(state.current_speed as int, control, dt)
    }
}

/// The heading change of a tick: `turn_axis * turn_speed * dt`.
pub open spec fn yaw_delta_of(turn_axis: int, turn_speed: int, dt: int) -> int {
    scaled(turn_axis * turn_speed, dt)
}

/// Derives the control intent from the held keys.
pub fn sample_input(keys: KeysHeld) -> (r: ControlIntent)
    ensures
        r.thrust_axis == axis(keys.forward, keys.backward),
        r.turn_axis == axis(keys.turn_right, keys.turn_left),
        r.is_rowing == (keys.forward || keys.backward),
{
    let mut thrust: i64 = 0;
    let mut is_rowing = false;
    if keys.forward {
        thrust = thrust + 1;
        is_rowing = true;
    }
    if keys.backward {
        thrust = thrust - 1;
        is_rowing = true;
    }
    let mut turn: i64 = 0;
    if keys.turn_left {
        turn = turn - 1;
    }
    if keys.turn_right {
        turn = turn + 1;
    }
    ControlIntent { thrust_axis: thrust, turn_axis: turn, is_rowing }
}

/// Limits a host-supplied tick duration to `[0, MAX_DT]`.
pub fn clamp_dt(dt: i64) -> (r: i64)
    ensures
        r == clamp(dt as int, 0, MAX_DT as int),
{
    if dt < 0 {
        0
    } else if dt > MAX_DT {
        MAX_DT
    } else {
        dt
    }
}

/// The drag factor of a coasting tick, in millionths.
pub fn drag_factor(drag: i64, dt: i64) -> (r: i64)
    requires
        0 <= drag <= MAX_PARAM,
        0 <= dt <= MAX_DT,
    ensures
        r == drag_factor_of(drag as int, dt as int),
        0 <= r <= ONE,
{
    assert(0 <= drag * dt <= MAX_PARAM * MAX_DT) by (nonlinear_arith)
        requires
            0 <= drag <= MAX_PARAM,
            0 <= dt <= MAX_DT,
    ;
    let f = ONE - mul_scaled(drag, dt);
    if f < 0 {
        0
    } else {
        f
    }
}

/// The turning of a tick, in microradians.
pub fn yaw_delta(turn_axis: i64, turn_speed: i64, dt: i64) -> (r: i64)
    requires
        -1 <= turn_axis <= 1,
        0 <= turn_speed <= MAX_PARAM,
        0 <= dt <= MAX_DT,
    ensures
        r == yaw_delta_of(turn_axis as int, turn_speed as int, dt as int),
        -MAX_PARAM <= r <= MAX_PARAM,
{
    assert(-MAX_PARAM <= turn_axis * turn_speed <= MAX_PARAM) by (nonlinear_arith)
        requires
            -1 <= turn_axis <= 1,
            0 <= turn_speed <= MAX_PARAM,
    ;
    let rate = turn_axis * turn_speed;
    assert(-MAX_PRODUCT <= rate * dt <= MAX_PRODUCT) by (nonlinear_arith)
        requires
            -MAX_PARAM <= rate <= MAX_PARAM,
            0 <= dt <= MAX_DT,
    ;
    mul_scaled(rate, dt)
}

/// The speed at the end of a tick: a rate-limited step toward the target while
/// rowing, drag decay while coasting, then limited to `max_speed`.
pub fn integrate_speed(state: &BoatState, control: &BoatControl, dt: i64) -> (r: i64)
    requires
        control.wf(),
        state.wf(*control),
        0 <= dt <= MAX_DT,
    ensures
        r == next_speed(*state, *control, dt as int),
        -control.max_speed <= r <= control.max_speed,
{
    let speed = state.current_speed;
    let raw: i64 = if state.is_rowing {
        assert(-control.max_speed <= state.target_speed * control.max_speed
            <= control.max_speed) by (nonlinear_arith)
            requires
                -1 <= state.target_speed <= 1,
                0 <= control.max_speed,
        ;
        let desired = state.target_speed * control.max_speed;
        let diff = desired - speed;
        assert(0 <= control.acceleration * dt <= MAX_PRODUCT) by (nonlinear_arith)
            requires
                0 <= control.acceleration <= MAX_PARAM,
                0 <= dt <= MAX_DT,
        ;
        let max_delta = mul_scaled(control.acceleration, dt);
        let delta = if diff < -max_delta {
            -max_delta
        } else if diff > max_delta {
            max_delta
        } else {
            diff
        };
        speed + delta
    } else {
        let factor = drag_factor(control.drag, dt);
        assert(-MAX_PRODUCT <= speed * factor <= MAX_PRODUCT) by (nonlinear_arith)
            requires
                -MAX_PARAM <= speed <= MAX_PARAM,
                0 <= factor <= ONE,
        ;
        mul_scaled(speed, factor)
    };
    if raw < -control.max_speed {
        -control.max_speed
    } else if raw > control.max_speed {
        control.max_speed
    } else {
        raw
    }
}

} // verus!
