use vstd::prelude::*;

use crate::control::{
    clamp_dt, integrate_speed, next_speed, sample_input, yaw_delta, yaw_delta_of, axis,
    BoatControl, BoatState, KeysHeld, MAX_DT, MAX_PARAM,
};
use crate::fixed::{clamp, mul_scaled, sat_add, saturate, scaled, Vec3i, MAX_PRODUCT, ONE};

verus! {

/// Position and heading of a boat.
#[derive(Clone, Copy, Debug, PartialEq, Eq)]
pub struct Pose {
    /// Position, in millionths of a unit.
    pub position: Vec3i,
    /// Rotation about the up axis, in microradians; positive turns right.
    pub yaw: i64,
}

/// Linear velocity and yaw input of a boat.
#[derive(Clone, Copy, Debug, PartialEq, Eq)]
pub struct Velocity3D {
    /// Velocity along the forward direction, in millionths of a unit per second.
    pub lin: Vec3i,
    /// Turn input in `[-1, 1]`.
    pub ang_yaw: i64,
}

/// The one controllable vehicle: its pose, motion, tuning and speed state.
#[derive(Clone, Copy, Debug, PartialEq, Eq)]
pub struct PlayerBoat {
    pub pose: Pose,
    pub velocity: Velocity3D,
    pub control: BoatControl,
    pub state: BoatState,
}

/// The velocity of a boat moving at `speed` along `forward`.
pub open spec fn velocity_of(forward: Vec3i, speed: int) -> Vec3i {
    Vec3i {
        x: scaled(forward.x as int, speed) as i64,
        y: scaled(forward.y as int, speed) as i64,
        z: scaled(forward.z as int, speed) as i64,
    }
}

/// The position reached from `position` moving at `velocity` for `dt`.
pub open spec fn translated(position: Vec3i, velocity: Vec3i, dt: int) -> Vec3i {
    Vec3i {
        x: saturate(position.x + scaled(velocity.x as int, dt)) as i64,
        y: saturate(position.y + scaled(velocity.y as int, dt)) as i64,
        z: saturate(position.z + scaled(velocity.z as int, dt)) as i64,
    }
}

/// A forward direction: a unit vector in fixed point, so no component exceeds `ONE`.
pub open spec fn is_direction(v: Vec3i) -> bool {
    v.within(ONE as int)
}

proof fn lemma_scaled_bound(a: int, b: int, bound: int)
    requires
        -(ONE as int) <= a <= ONE,
        0 <= bound,
        -bound <= b <= bound,
    ensures
        -bound <= scaled(a, b) <= bound,
{
    let p = a * b;
    assert(-bound * ONE <= p <= bound * ONE) by (nonlinear_arith)
        requires
            -(ONE as int) <= a <= ONE,
            0 <= bound,
            -bound <= b <= bound,
            p == a * b,
    ;
    if p >= 0 {
        assert(p / (ONE as int) <= bound) by (nonlinear_arith)
            requires
                0 <= p <= bound * ONE,
        ;
    } else {
        assert((-p) / (ONE as int) <= bound) by (nonlinear_arith)
            requires
                0 <= -p <= bound * ONE,
        ;
    }
}

/// The velocity of a boat moving at `speed` along the direction `forward`.
pub fn velocity_along(forward: Vec3i, speed: i64) -> (r: Vec3i)
    requires
        is_direction(forward),
        -MAX_PARAM <= speed <= MAX_PARAM,
    ensures
        r == velocity_of(forward, speed as int),
        r.within(if speed >= 0 { speed as int } else { -speed }),
{
    let ghost bound: int = if speed >= 0 { speed as int } else { -speed };
    proof {
        lemma_scaled_bound(forward.x as int, speed as int, bound);
        lemma_scaled_bound(forward.y as int, speed as int, bound);
        lemma_scaled_bound(forward.z as int, speed as int, bound);
    }
    assert(-MAX_PRODUCT <= forward.x * speed <= MAX_PRODUCT && -MAX_PRODUCT <= forward.y * speed
        <= MAX_PRODUCT && -MAX_PRODUCT <= forward.z * speed <= MAX_PRODUCT) by (nonlinear_arith)
        requires
            is_direction(forward),
            -MAX_PARAM <= speed <= MAX_PARAM,
    ;
    Vec3i {
        x: mul_scaled(forward.x, speed),
        y: mul_scaled(forward.y, speed),
        z: mul_scaled(forward.z, speed),
    }
}

/// Moves `position` by `velocity * dt`; each coordinate stops at the bounds of `i64`.
pub fn translate(position: Vec3i, velocity: Vec3i, dt: i64) -> (r: Vec3i)
    requires
        velocity.within(MAX_PARAM as int),
        0 <= dt <= MAX_DT,
    ensures
        r == translated(position, velocity, dt as int),
{
    assert(-MAX_PRODUCT <= velocity.x * dt <= MAX_PRODUCT && -MAX_PRODUCT <= velocity.y * dt
        <= MAX_PRODUCT && -MAX_PRODUCT <= velocity.z * dt <= MAX_PRODUCT) by (nonlinear_arith)
        requires
            velocity.within(MAX_PARAM as int),
            0 <= dt <= MAX_DT,
    ;
    Vec3i {
        x: sat_add(position.x, mul_scaled(velocity.x, dt)),
        y: sat_add(position.y, mul_scaled(velocity.y, dt)),
        z: sat_add(position.z, mul_scaled(velocity.z, dt)),
    }
}

impl PlayerBoat {
    /// The boat's invariant: valid tuning, speed within `max_speed`, target and
    /// turn input within `[-1, 1]`, velocity no faster than `max_speed` on any axis.
    pub open spec fn wf(self) -> bool {
        &&& self.control.wf()
        &&& self.state.wf(self.control)
        &&& -1 <= self.velocity.ang_yaw <= 1
        &&& self.velocity.lin.within(self.control.max_speed as int)
    }

    /// A boat at the origin, at rest and heading along the initial direction.
    pub fn spawn(control: BoatControl) -> (r: PlayerBoat)
        requires
            control.wf(),
        ensures
            r.wf(),
            r.control == control,
            r.pose.position == (Vec3i { x: 0, y: 0, z: 0 }),
            r.pose.yaw == 0,
            r.velocity.lin == (Vec3i { x: 0, y: 0, z: 0 }),
            r.velocity.ang_yaw == 0,
            r.state == (BoatState { current_speed: 0, target_speed: 0, is_rowing: false }),
    {
        PlayerBoat {
            pose: Pose { position: Vec3i::zero(), yaw: 0 },
            velocity: Velocity3D { lin: Vec3i::zero(), ang_yaw: 0 },
            control,
            state: BoatState::at_rest(),
        }
    }

    /// Samples the held keys: records the thrust axis as the target, whether
    /// the boat rows, and the turn axis as the yaw input.
    pub fn apply_input(&mut self, keys: KeysHeld)
        requires
            old(self).wf(),
        ensures
            final(self).wf(),
            final(self).state.target_speed == axis(keys.forward, keys.backward),
            final(self).state.is_rowing == (keys.forward || keys.backward),
            final(self).velocity.ang_yaw == axis(keys.turn_right, keys.turn_left),
            final(self).state.current_speed == old(self).state.current_speed,
            final(self).velocity.lin == old(self).velocity.lin,
            final(self).pose == old(self).pose,
            final(self).control == old(self).control,
    {
        let intent = sample_input(keys);
        self.state.target_speed = intent.thrust_axis;
        self.state.is_rowing = intent.is_rowing;
        self.velocity.ang_yaw = intent.turn_axis;
    }

    /// The first half of a tick: turns the boat by `ang_yaw * turn_speed * dt`
    /// (`dt` in microseconds, limited to `[0, MAX_DT]`) and returns that turn.
    pub fn turn(&mut self, dt: i64) -> (r: i64)
        requires
            old(self).wf(),
        ensures
            final(self).wf(),
            r == yaw_delta_of(
                old(self).velocity.ang_yaw as int,
                old(self).control.turn_speed as int,
                clamp(dt as int, 0, MAX_DT as int),
            ),
            final(self).pose.yaw == saturate(old(self).pose.yaw + r),
            final(self).pose.position == old(self).pose.position,
            final(self).velocity == old(self).velocity,
            final(self).state == old(self).state,
            final(self).control == old(self).control,
    {
        let dt = clamp_dt(dt);
        let delta = yaw_delta(self.velocity.ang_yaw, self.control.turn_speed, dt);
        self.pose.yaw = sat_add(self.pose.yaw, delta);
        delta
    }

    /// The second half of a tick, once the heading has been turned: updates the
    /// speed, sets the velocity to `forward` (the heading after the turn) times
    /// the new speed, and moves the boat by that velocity for `dt`.
    pub fn advance(&mut self, dt: i64, forward: Vec3i)
        requires
            old(self).wf(),
            is_direction(forward),
        ensures
            final(self).wf(),
            final(self).state.current_speed == next_speed(
                old(self).state,
                old(self).control,
                clamp(dt as int, 0, MAX_DT as int),
            ),
            final(self).velocity.lin == velocity_of(
                forward,
                final(self).state.current_speed as int,
            ),
            final(self).pose.position == translated(
                old(self).pose.position,
                final(self).velocity.lin,
                clamp(dt as int, 0, MAX_DT as int),
            ),
            final(self).pose.yaw == old(self).pose.yaw,
            final(self).velocity.ang_yaw == old(self).velocity.ang_yaw,
            final(self).state.target_speed == old(self).state.target_speed,
            final(self).state.is_rowing == old(self).state.is_rowing,
            final(self).control == old(self).control,
    {
        let dt = clamp_dt(dt);
        let speed = integrate_speed(&self.state, &self.control, dt);
        self.state.current_speed = speed;
        let lin = velocity_along(forward, speed);
        self.velocity.lin = lin;
        self.pose.position = translate(self.pose.position, lin, dt);
    }
}

} // verus!
