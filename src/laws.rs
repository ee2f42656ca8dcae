use vstd::prelude::*;

use crate::control::{coast_speed, drag_factor_of, next_speed, BoatControl, BoatState, MAX_DT};
use crate::fixed::{scaled, ONE};

verus! {

/// The speed after `n` coasting ticks of duration `dt`, starting from `speed`.
pub open spec fn coast_ticks(speed: int, control: BoatControl, dt: int, n: nat) -> int
    decreases n,
{
    if n == 0 {
        speed
    } else {
        coast_speed(coast_ticks(speed, control, dt, (n - 1) as nat), control, dt)
    }
}

/// `|v|`.
pub open spec fn magnitude(v: int) -> int {
    if v >= 0 {
        v
    } else {
        -v
    }
}

/// Speed limit: whatever the state, the tuning and the tick, the speed at the
/// end of the tick lies within `[-max_speed, max_speed]`.
pub proof fn lemma_speed_within_limit(state: BoatState, control: BoatControl, dt: int)
    requires
        control.wf(),
    ensures
        -control.max_speed <= next_speed(state, control, dt) <= control.max_speed,
{
}

proof fn lemma_coast_step(speed: int, control: BoatControl, dt: int)
    requires
        control.wf(),
        0 <= dt <= MAX_DT,
        -control.max_speed <= speed <= control.max_speed,
    ensures
        speed >= 0 ==> 0 <= coast_speed(speed, control, dt) <= speed,
        speed <= 0 ==> speed <= coast_speed(speed, control, dt) <= 0,
        drag_factor_of(control.drag as int, dt) < ONE && speed > 0 ==> coast_speed(
            speed,
            control,
            dt,
        ) < speed,
        drag_factor_of(control.drag as int, dt) < ONE && speed < 0 ==> coast_speed(
            speed,
            control,
            dt,
        ) > speed,
{
    let f = drag_factor_of(control.drag as int, dt);
    assert(0 <= control.drag * dt) by (nonlinear_arith)
        requires
            0 <= control.drag,
            0 <= dt,
    ;
    assert(0 <= f <= ONE);
    let p = speed * f;
    if speed >= 0 {
        assert(0 <= p <= speed * ONE) by (nonlinear_arith)
            requires
                0 <= speed,
                0 <= f <= ONE,
                p == speed * f,
        ;
        if f < ONE && speed > 0 {
            assert(p < speed * ONE) by (nonlinear_arith)
                requires
                    0 < speed,
                    0 <= f < ONE,
                    p == speed * f,
            ;
        }
        assert(scaled(speed, f) == p / (ONE as int));
    } else {
        assert(speed * ONE <= p <= 0) by (nonlinear_arith)
            requires
                speed < 0,
                0 <= f <= ONE,
                p == speed * f,
        ;
        if f < ONE {
            assert(speed * ONE < p) by (nonlinear_arith)
                requires
                    speed < 0,
                    0 <= f < ONE,
                    p == speed * f,
            ;
        }
    }
}

/// Drag decay: with no thrust held, at a fixed `dt`, the speed never changes
/// sign and its magnitude never grows from one tick to the next. Each of these
/// ticks is the integrator's step on a coasting state.
pub proof fn lemma_drag_convergence(speed: int, control: BoatControl, dt: int, n: nat)
    requires
        control.wf(),
        0 <= dt <= MAX_DT,
        -control.max_speed <= speed <= control.max_speed,
    ensures
        speed >= 0 ==> coast_ticks(speed, control, dt, n) >= 0,
        speed <= 0 ==> coast_ticks(speed, control, dt, n) <= 0,
        magnitude(coast_ticks(speed, control, dt, n + 1)) <= magnitude(
            coast_ticks(speed, control, dt, n),
        ),
        magnitude(coast_ticks(speed, control, dt, n)) <= magnitude(speed),
        forall|s: BoatState|
            !s.is_rowing && s.current_speed == coast_ticks(speed, control, dt, n) ==> #[trigger]
            next_speed(s, control, dt) == coast_ticks(speed, control, dt, n + 1),
    decreases n,
{
    if n > 0 {
        let m = (n - 1) as nat;
        lemma_drag_convergence(speed, control, dt, m);
        lemma_coast_step(coast_ticks(speed, control, dt, m), control, dt);
    }
    let s = coast_ticks(speed, control, dt, n);
    lemma_coast_step(s, control, dt);
    assert(coast_ticks(speed, control, dt, n + 1) == coast_speed(s, control, dt));
}

proof fn lemma_coast_progress(speed: int, control: BoatControl, dt: int, n: nat)
    requires
        control.wf(),
        0 <= dt <= MAX_DT,
        -control.max_speed <= speed <= control.max_speed,
        drag_factor_of(control.drag as int, dt) < ONE,
    ensures
        coast_ticks(speed, control, dt, n) == 0 || magnitude(coast_ticks(speed, control, dt, n))
            <= magnitude(speed) - n,
    decreases n,
{
    if n > 0 {
        let m = (n - 1) as nat;
        lemma_coast_progress(speed, control, dt, m);
        lemma_drag_convergence(speed, control, dt, m);
        let s = coast_ticks(speed, control, dt, m);
        lemma_coast_step(s, control, dt);
        assert(coast_ticks(speed, control, dt, n) == coast_speed(s, control, dt));
    }
}

/// Drag stops the boat: when a tick's drag factor is below one, `|speed|`
/// coasting ticks bring the speed to exactly zero.
pub proof fn lemma_drag_stops(speed: int, control: BoatControl, dt: int)
    requires
        control.wf(),
        0 <= dt <= MAX_DT,
        -control.max_speed <= speed <= control.max_speed,
        drag_factor_of(control.drag as int, dt) < ONE,
    ensures
        coast_ticks(speed, control, dt, magnitude(speed) as nat) == 0,
{
    lemma_coast_progress(speed, control, dt, magnitude(speed) as nat);
}

} // verus!
