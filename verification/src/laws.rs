//! The laws this library promises, each proved once and for all: determinism
//! of whole trajectories, time-purity of airborne height, the per-mode axis
//! locks, the idempotent fixed point at a reached destination, and the
//! integrator's independence from steering.

use vstd::prelude::*;
use crate::grid::{Pos, center_spec, pos_in_range};
use crate::movement::{
    Actor, Mover, Transform, Velocity, integrate_axis_spec, resolve_spec, tick_spec, ticked,
    TIME_SCALE,
};
use crate::steering::{SteeringState, aligns_spec, signum_spec, is_airborne};

verus! {

/// The whole per-actor state after one full tick (resolve, then integrate),
/// as the structs the next tick consumes.
pub open spec fn tick_state_spec(
    s: SteeringState,
    tr: Transform,
    speed: int,
    dt: int,
    now: int,
) -> (SteeringState, Transform, Velocity) {
    let r = tick_spec(s, tr, speed, dt, now);
    (
        SteeringState {
            current_cell: Pos { x: r.cell_x as i64, y: r.cell_y as i64 },
            destination_cell: s.destination_cell,
            direction: s.direction,
            mode: s.mode,
        },
        Transform { x: r.pos_x as i64, y: r.pos_y as i64 },
        Velocity { x: r.vel_x as i64, y: r.vel_y as i64 },
    )
}

/// The trajectory an actor traces through a sequence of `(dt, now)` samples:
/// the per-tick states, in order. A pure function of the initial steering
/// state, the initial transform, the speed and the samples — the initial
/// velocity plays no part, because each resolver pass overwrites both of its
/// components before the integrator reads them.
pub open spec fn trajectory_spec(
    s: SteeringState,
    tr: Transform,
    speed: int,
    samples: Seq<(int, int)>,
) -> Seq<(SteeringState, Transform, Velocity)>
    decreases samples.len(),
{
    if samples.len() == 0 {
        Seq::empty()
    } else {
        let st = tick_state_spec(s, tr, speed, samples[0].0, samples[0].1);
        Seq::empty().push(st) + trajectory_spec(st.0, st.1, speed, samples.drop_first())
    }
}

/// Determinism: for a fixed steering state, speed and sequence of
/// `(dt, now)` samples, two independent runs of resolver plus integrator
/// trace identical trajectories.
pub proof fn lemma_trajectory_deterministic(
    s1: SteeringState,
    tr1: Transform,
    speed1: int,
    samples1: Seq<(int, int)>,
    s2: SteeringState,
    tr2: Transform,
    speed2: int,
    samples2: Seq<(int, int)>,
)
    requires
        s1 == s2,
        tr1 == tr2,
        speed1 == speed2,
        samples1 == samples2,
    ensures
        trajectory_spec(s1, tr1, speed1, samples1) == trajectory_spec(s2, tr2, speed2, samples2),
{
}

/// An actor taken through one executed tick lands exactly on the
/// spec-level next state: the executable systems and the mathematical
/// trajectory agree step by step.
pub proof fn lemma_ticked_is_tick_state(before: Actor, after: Actor, speed: int, dt: int, now: int)
    requires
        ticked(before, after, speed, dt, now),
    ensures
        (after.steering, after.transform, after.velocity)
            == tick_state_spec(before.steering, before.transform, speed, dt, now),
{
}

/// Time-purity of airborne modes: the height the resolver writes for a
/// falling or jumping actor depends only on the mode's own anchors and the
/// absolute time — not on the current transform, the speed, or any earlier
/// evaluation — so rewinding `now` to any past instant reproduces the height
/// originally computed there.
pub proof fn lemma_airborne_rewind(
    s: SteeringState,
    tr1: Transform,
    tr2: Transform,
    speed1: int,
    speed2: int,
    now: int,
)
    requires
        is_airborne(s.mode),
    ensures
        resolve_spec(s, tr1, speed1, now).pos_y == resolve_spec(s, tr2, speed2, now).pos_y,
{
}

/// Axis lock, grounded: after every full tick of a grounded actor, the
/// vertical position equals the center of its current cell and the vertical
/// velocity is zero.
pub proof fn lemma_grounded_vertical_lock(
    s: SteeringState,
    tr: Transform,
    speed: int,
    dt: int,
    now: int,
)
    requires
        s.mode is Grounded,
    ensures
        ({
            let r = tick_spec(s, tr, speed, dt, now);
            r.pos_y == center_spec(r.cell_y) && r.vel_y == 0
        }),
{
}

/// Axis lock, climbing: after every full tick of a climbing actor, the
/// horizontal position equals the center of its current cell and the
/// horizontal velocity is zero.
pub proof fn lemma_climbing_horizontal_lock(
    s: SteeringState,
    tr: Transform,
    speed: int,
    dt: int,
    now: int,
)
    requires
        s.mode is Climbing,
    ensures
        ({
            let r = tick_spec(s, tr, speed, dt, now);
            r.pos_x == center_spec(r.cell_x) && r.vel_x == 0
        }),
{
}

/// Idempotent fixed point: a grounded or climbing actor whose destination
/// equals its current cell and whose direction intent is zero comes to rest
/// after one tick — and every further tick, whatever its delta and absolute
/// time, reproduces exactly the same cell, transform and velocity. One tick
/// and a thousand ticks are indistinguishable.
pub proof fn lemma_fixed_point_idempotent(
    s: SteeringState,
    tr: Transform,
    speed: int,
    dt1: int,
    now1: int,
    dt2: int,
    now2: int,
)
    requires
        pos_in_range(s.current_cell),
        s.current_cell == s.destination_cell,
        s.direction.x is Neutral,
        s.direction.y is Neutral,
        s.mode is Grounded || s.mode is Climbing,
    ensures
        ({
            let first = tick_state_spec(s, tr, speed, dt1, now1);
            let second = tick_state_spec(first.0, first.1, speed, dt2, now2);
            &&& first.1.x == center_spec(s.current_cell.x as int)
            &&& first.1.y == center_spec(s.current_cell.y as int)
            &&& first.2 == (Velocity { x: 0i64, y: 0i64 })
            &&& second == (first.0, first.1, first.2)
        }),
{
}

/// The airborne half of the fixed point: with no direction intent and the
/// destination reached, repeating a tick at the same absolute time leaves a
/// falling or jumping actor's transform and velocity unchanged, whatever the
/// tick deltas. (At different absolute times the height moves along the
/// curve, so only the surface modes are a fixed point across time.)
pub proof fn lemma_fixed_point_airborne_same_instant(
    s: SteeringState,
    tr: Transform,
    speed: int,
    dt1: int,
    dt2: int,
    now: int,
)
    requires
        pos_in_range(s.current_cell),
        s.current_cell == s.destination_cell,
        s.direction.x is Neutral,
        s.direction.y is Neutral,
        is_airborne(s.mode),
    ensures
        ({
            let first = tick_state_spec(s, tr, speed, dt1, now);
            let second = tick_state_spec(first.0, first.1, speed, dt2, now);
            second == (first.0, first.1, first.2)
        }),
{
}

/// No overshoot: a grounded actor walking right toward its destination, in
/// steps that divide the remaining distance evenly, never passes the
/// destination center — each tick either advances by one step or snaps and
/// stops exactly there.
pub proof fn lemma_no_overshoot_even_steps(
    s: SteeringState,
    tr: Transform,
    speed: int,
    dt: int,
    now: int,
)
    requires
        s.mode is Grounded,
        s.direction.x is Positive,
        0 <= speed,
        0 <= dt,
        tr.x as int <= center_spec(s.destination_cell.x as int),
        (speed * dt) % (TIME_SCALE as int) == 0,
        ({
            let step = (speed * dt) / (TIME_SCALE as int);
            step == 0
                || (center_spec(s.destination_cell.x as int) - tr.x as int) % step == 0
        }),
    ensures
        tick_spec(s, tr, speed, dt, now).pos_x
            <= center_spec(s.destination_cell.x as int),
{
    let desired = center_spec(s.destination_cell.x as int);
    let step = (speed * dt) / (TIME_SCALE as int);
    assert(0 <= speed * dt) by (nonlinear_arith)
        requires 0 <= speed && 0 <= dt;
    vstd::arithmetic::div_mod::lemma_div_pos_is_pos(speed * dt, TIME_SCALE as int);
    if (tr.x as int) < desired && step > 0 {
        // still travelling: the gap to the center is a positive multiple of
        // the step, so one step cannot pass it
        let gap = desired - tr.x as int;
        vstd::arithmetic::div_mod::lemma_fundamental_div_mod(gap, step);
        let k = gap / step;
        assert(gap == step * k);
        assert(k >= 1) by (nonlinear_arith)
            requires step >= 1 && gap == step * k && gap >= 1;
        assert(step * k >= step) by (nonlinear_arith)
            requires step >= 1 && k >= 1;
        let r = resolve_spec(s, tr, speed, now);
        assert(signum_spec(s.direction.x) == 1);
        assert(aligns_spec(s.direction.x, desired - tr.x as int));
        assert(r.pos_x == tr.x as int && r.vel_x == speed);
        assert(tick_spec(s, tr, speed, dt, now).pos_x == integrate_axis_spec(r.pos_x, r.vel_x, dt));
        assert(integrate_axis_spec(r.pos_x, r.vel_x, dt) == tr.x + step);
    } else if (tr.x as int) == desired {
        // arrived: the snap branch pins the position to the center and the
        // velocity to zero, so integration moves nothing
        let r = resolve_spec(s, tr, speed, now);
        assert(!aligns_spec(s.direction.x, desired - tr.x as int));
        assert(r.pos_x == desired && r.vel_x == 0);
        assert(tick_spec(s, tr, speed, dt, now).pos_x == desired);
    } else {
        // a step of zero: the position does not move this tick
        let r = resolve_spec(s, tr, speed, now);
        assert(step == 0);
        assert(signum_spec(s.direction.x) == 1);
        assert(r.pos_x == tr.x as int && r.vel_x == speed);
        assert(tick_spec(s, tr, speed, dt, now).pos_x == tr.x + step);
    }
}

/// Integrator independence: what integration does to an entity is a function
/// of that entity's own transform and velocity and of the tick delta alone;
/// other entities, and any steering state, play no part.
pub proof fn lemma_integrator_independent(before1: Seq<Mover>, before2: Seq<Mover>, k: int, dt: int)
    requires
        0 <= k < before1.len(),
        0 <= k < before2.len(),
        before1[k] == before2[k],
    ensures
        integrate_axis_spec(before1[k].transform.x as int, before1[k].velocity.x as int, dt)
            == integrate_axis_spec(before2[k].transform.x as int, before2[k].velocity.x as int, dt),
        integrate_axis_spec(before1[k].transform.y as int, before1[k].velocity.y as int, dt)
            == integrate_axis_spec(before2[k].transform.y as int, before2[k].velocity.y as int, dt),
{
}

} // verus!
