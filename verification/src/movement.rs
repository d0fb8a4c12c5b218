//! The motion resolver and the velocity integrator.
//!
//! Each tick the resolver turns one actor's steering state into a velocity
//! and, for airborne modes, a directly computed height; the integrator then
//! advances every entity that has a transform and a velocity, with no
//! knowledge of steering. An axis whose position the resolver wrote directly
//! always carries zero velocity, so the two systems never both drive the
//! same axis in one tick.

use vstd::prelude::*;
use crate::grid::{Pos, center, center_spec, cell_in_range, pos_in_range};
use crate::steering::{
    AxisIntent, SteeringMode, SteeringState, aligns_spec, signum_spec,
    vertical_curve, vertical_curve_spec, CURVE_BOUND, MAX_AIR_TIME,
};
use crate::config::MovementConfig;

verus! {

/// World-space coordinates are bounded so that every tick's arithmetic stays
/// comfortably within `i64`. Roughly four billion cells of headroom.
pub const MAX_COORD: i64 = 4_000_000_000_000;

/// Milliseconds per second: velocities are per second, tick times are in
/// milliseconds.
pub const TIME_SCALE: i64 = 1000;

/// Largest supported speed, in milliunits per second.
pub const MAX_SPEED: i64 = 1_000_000;

/// Largest supported tick delta, in milliseconds.
pub const MAX_DT: i64 = 1_000_000;

/// Largest supported absolute simulation time, in milliseconds.
pub const MAX_TIME: i64 = 1_000_000_000;

/// Continuous world-space position of an entity, in milliunits.
#[derive(Clone, Copy, PartialEq, Eq, Structural, Debug)]
pub struct Transform {
    pub x: i64,
    pub y: i64,
}

/// Linear velocity of an entity, in milliunits per second.
#[derive(Clone, Copy, PartialEq, Eq, Structural, Debug)]
pub struct Velocity {
    pub x: i64,
    pub y: i64,
}

/// An entity that steers: the join of steering state, transform and velocity.
#[derive(Clone, Copy, PartialEq, Eq, Structural, Debug)]
pub struct Actor {
    pub steering: SteeringState,
    pub transform: Transform,
    pub velocity: Velocity,
}

/// An entity that merely moves: a transform advanced by a velocity, with no
/// steering state at all (a projectile, a particle).
#[derive(Clone, Copy, PartialEq, Eq, Structural, Debug)]
pub struct Mover {
    pub transform: Transform,
    pub velocity: Velocity,
}

/// True when a world coordinate is within the supported world.
pub open spec fn in_world(x: int) -> bool {
    -MAX_COORD <= x <= MAX_COORD
}

/// A speed the resolver accepts: nonnegative and bounded.
pub open spec fn speed_ok(speed: int) -> bool {
    0 <= speed <= MAX_SPEED
}

/// An airborne mode is well formed when its anchor height is a world
/// coordinate and its start time a valid simulation time.
pub open spec fn mode_wf(m: SteeringMode) -> bool {
    match m {
        SteeringMode::Falling { start_height, start_time, .. } =>
            in_world(start_height as int) && 0 <= start_time <= MAX_TIME,
        SteeringMode::Jumping { start_height, start_time, .. } =>
            in_world(start_height as int) && 0 <= start_time <= MAX_TIME,
        _ => true,
    }
}

/// A steering state the resolver accepts: cells on the playing field and a
/// well-formed mode.
pub open spec fn steering_wf(s: SteeringState) -> bool {
    pos_in_range(s.current_cell) && pos_in_range(s.destination_cell) && mode_wf(s.mode)
}

/// The tick's absolute time is consistent with an airborne mode: the mode
/// started in the past (a start time in the future is an upstream contract
/// violation) and has not outlived the supported airborne stretch.
pub open spec fn airborne_time_ok(m: SteeringMode, now: int) -> bool {
    match m {
        SteeringMode::Falling { start_time, .. } =>
            start_time <= now <= start_time + MAX_AIR_TIME,
        SteeringMode::Jumping { start_time, .. } =>
            start_time <= now <= start_time + MAX_AIR_TIME,
        _ => true,
    }
}

/// After one axis resolution, the actor's cell coordinate on that axis:
/// unchanged while the intent still points at the destination's center,
/// advanced to the destination once it does not (arrival).
pub open spec fn axis_cell_after(d: AxisIntent, cur: int, dest: int, pos: int) -> int {
    if aligns_spec(d, center_spec(dest) - pos) {
        cur
    } else {
        dest
    }
}

/// After one axis resolution, the transform coordinate on that axis: kept
/// while still travelling, snapped to the destination's center on arrival.
pub open spec fn axis_pos_after(d: AxisIntent, dest: int, pos: int) -> int {
    if aligns_spec(d, center_spec(dest) - pos) {
        pos
    } else {
        center_spec(dest)
    }
}

/// After one axis resolution, the velocity on that axis: the intent's sign
/// times the configured speed while still travelling, zero on arrival.
pub open spec fn axis_vel_after(d: AxisIntent, dest: int, pos: int, speed: int) -> int {
    if aligns_spec(d, center_spec(dest) - pos) {
        signum_spec(d) * speed
    } else {
        0
    }
}

/// The whole outcome of resolving one actor, as mathematical integers:
/// its cell, transform and velocity on both axes.
pub struct Resolved {
    pub cell_x: int,
    pub cell_y: int,
    pub pos_x: int,
    pub pos_y: int,
    pub vel_x: int,
    pub vel_y: int,
}

/// What one resolver pass does to one actor, per locomotion mode:
/// - `Grounded` locks the vertical axis to the current cell's center and
///   resolves the horizontal axis by alignment;
/// - `Climbing` locks the horizontal axis to the current cell's center and
///   resolves the vertical axis by alignment;
/// - `Falling` and `Jumping` bypass vertical integration entirely: vertical
///   velocity is zero and the height is the mode's anchor height plus a pure
///   curve of elapsed time, so a rewound `now` reproduces past heights;
///   the horizontal axis is resolved by alignment.
pub open spec fn resolve_spec(s: SteeringState, tr: Transform, speed: int, now: int) -> Resolved {
    let cx = s.current_cell.x as int;
    let cy = s.current_cell.y as int;
    let dx = s.destination_cell.x as int;
    let dy = s.destination_cell.y as int;
    match s.mode {
        SteeringMode::Grounded => Resolved {
            cell_x: axis_cell_after(s.direction.x, cx, dx, tr.x as int),
            cell_y: cy,
            pos_x: axis_pos_after(s.direction.x, dx, tr.x as int),
            pos_y: center_spec(cy),
            vel_x: axis_vel_after(s.direction.x, dx, tr.x as int, speed),
            vel_y: 0,
        },
        SteeringMode::Climbing => Resolved {
            cell_x: cx,
            cell_y: axis_cell_after(s.direction.y, cy, dy, tr.y as int),
            pos_x: center_spec(cx),
            pos_y: axis_pos_after(s.direction.y, dy, tr.y as int),
            vel_x: 0,
            vel_y: axis_vel_after(s.direction.y, dy, tr.y as int, speed),
        },
        SteeringMode::Falling { start_height, start_time, .. } => Resolved {
            cell_x: axis_cell_after(s.direction.x, cx, dx, tr.x as int),
            cell_y: cy,
            pos_x: axis_pos_after(s.direction.x, dx, tr.x as int),
            pos_y: start_height + vertical_curve_spec(s.mode, now - start_time),
            vel_x: axis_vel_after(s.direction.x, dx, tr.x as int, speed),
            vel_y: 0,
        },
        SteeringMode::Jumping { start_height, start_time, .. } => Resolved {
            cell_x: axis_cell_after(s.direction.x, cx, dx, tr.x as int),
            cell_y: cy,
            pos_x: axis_pos_after(s.direction.x, dx, tr.x as int),
            pos_y: start_height + vertical_curve_spec(s.mode, now - start_time),
            vel_x: axis_vel_after(s.direction.x, dx, tr.x as int, speed),
            vel_y: 0,
        },
    }
}

/// What integration does to one coordinate: advance it by velocity times the
/// tick delta, scaled from per-second to per-millisecond, rounding toward
/// zero.
pub open spec fn integrate_axis_spec(pos: int, vel: int, dt: int) -> int {
    if vel >= 0 {
        pos + (vel * dt) / (TIME_SCALE as int)
    } else {
        pos - ((-vel) * dt) / (TIME_SCALE as int)
    }
}

/// Resolve one axis of one actor: decide whether the actor is still
/// travelling toward the destination center on this axis, and either keep
/// moving or snap-and-stop there. Returns the new cell coordinate, transform
/// coordinate and velocity for the axis.
fn resolve_axis(d: AxisIntent, cur: i64, dest: i64, pos: i64, speed: i64) -> (r: (i64, i64, i64))
    requires
        cell_in_range(cur as int),
        cell_in_range(dest as int),
        in_world(pos as int),
        speed_ok(speed as int),
    ensures
        r.0 as int == axis_cell_after(d, cur as int, dest as int, pos as int),
        r.1 as int == axis_pos_after(d, dest as int, pos as int),
        r.2 as int == axis_vel_after(d, dest as int, pos as int, speed as int),
        cell_in_range(r.0 as int),
        in_world(r.1 as int),
        -MAX_SPEED <= r.2 <= MAX_SPEED,
{
    let desired: i64 = center(dest);
    let delta: i64 = desired - pos;
    if d.aligns_with(delta) {
        let sg = d.signum();
        proof {
            assert(-MAX_SPEED <= sg * speed <= MAX_SPEED) by (nonlinear_arith)
                requires -1 <= sg <= 1 && 0 <= speed <= MAX_SPEED;
        }
        (cur, pos, sg * speed)
    } else {
        (dest, desired, 0)
    }
}

/// One resolver pass over one actor, per the active locomotion mode: write
/// the locked or time-driven axis directly, resolve the free axis by
/// alignment with the destination, and snap the current cell to the
/// destination on any axis that has arrived. The destination, direction and
/// mode are never changed here.
pub fn resolve_motion(
    steering: &mut SteeringState,
    transform: &mut Transform,
    velocity: &mut Velocity,
    config: &MovementConfig,
    now: i64,
)
    requires
        steering_wf(*old(steering)),
        in_world(old(transform).x as int),
        in_world(old(transform).y as int),
        speed_ok(config.player_speed as int),
        0 <= now <= MAX_TIME,
        airborne_time_ok(old(steering).mode, now as int),
    ensures
        final(steering).current_cell.x as int
            == resolve_spec(*old(steering), *old(transform), config.player_speed as int, now as int).cell_x,
        final(steering).current_cell.y as int
            == resolve_spec(*old(steering), *old(transform), config.player_speed as int, now as int).cell_y,
        final(transform).x as int
            == resolve_spec(*old(steering), *old(transform), config.player_speed as int, now as int).pos_x,
        final(transform).y as int
            == resolve_spec(*old(steering), *old(transform), config.player_speed as int, now as int).pos_y,
        final(velocity).x as int
            == resolve_spec(*old(steering), *old(transform), config.player_speed as int, now as int).vel_x,
        final(velocity).y as int
            == resolve_spec(*old(steering), *old(transform), config.player_speed as int, now as int).vel_y,
        final(steering).destination_cell == old(steering).destination_cell,
        final(steering).direction == old(steering).direction,
        final(steering).mode == old(steering).mode,
        steering_wf(*final(steering)),
        in_world(final(transform).x as int),
        -(MAX_COORD + CURVE_BOUND) <= final(transform).y <= MAX_COORD + CURVE_BOUND,
        -MAX_SPEED <= final(velocity).x <= MAX_SPEED,
        -MAX_SPEED <= final(velocity).y <= MAX_SPEED,
{
    let speed = config.player_speed;
    match steering.mode {
        SteeringMode::Grounded => {
            // Grounded: lock the vertical axis to the current cell's center.
            transform.y = center(steering.current_cell.y);
            velocity.y = 0;
            let (cx, px, vx) = resolve_axis(
                steering.direction.x,
                steering.current_cell.x,
                steering.destination_cell.x,
                transform.x,
                speed,
            );
            steering.current_cell.x = cx;
            transform.x = px;
            velocity.x = vx;
        }
        SteeringMode::Climbing => {
            // Climbing: lock the horizontal axis to the current cell's center.
            transform.x = center(steering.current_cell.x);
            velocity.x = 0;
            let (cy, py, vy) = resolve_axis(
                steering.direction.y,
                steering.current_cell.y,
                steering.destination_cell.y,
                transform.y,
                speed,
            );
            steering.current_cell.y = cy;
            transform.y = py;
            velocity.y = vy;
        }
        SteeringMode::Falling { start_height, start_time, .. } => {
            // Airborne: height is a pure function of elapsed time; vertical
            // velocity stays zero so integration cannot touch this axis.
            velocity.y = 0;
            transform.y = start_height + vertical_curve(&steering.mode, now - start_time);
            let (cx, px, vx) = resolve_axis(
                steering.direction.x,
                steering.current_cell.x,
                steering.destination_cell.x,
                transform.x,
                speed,
            );
            steering.current_cell.x = cx;
            transform.x = px;
            velocity.x = vx;
        }
        SteeringMode::Jumping { start_height, start_time, .. } => {
            velocity.y = 0;
            transform.y = start_height + vertical_curve(&steering.mode, now - start_time);
            let (cx, px, vx) = resolve_axis(
                steering.direction.x,
                steering.current_cell.x,
                steering.destination_cell.x,
                transform.x,
                speed,
            );
            steering.current_cell.x = cx;
            transform.x = px;
            velocity.x = vx;
        }
    }
}

/// Advance one coordinate by velocity times the tick delta.
fn integrate_axis(pos: i64, vel: i64, dt: i64) -> (r: i64)
    requires
        -(MAX_COORD + CURVE_BOUND) <= pos <= MAX_COORD + CURVE_BOUND,
        -MAX_SPEED <= vel <= MAX_SPEED,
        0 <= dt <= MAX_DT,
    ensures
        r as int == integrate_axis_spec(pos as int, vel as int, dt as int),
{
    if vel >= 0 {
        proof {
            assert(0 <= vel * dt <= MAX_SPEED * MAX_DT) by (nonlinear_arith)
                requires 0 <= vel <= MAX_SPEED && 0 <= dt <= MAX_DT;
        }
        pos + (vel * dt) / TIME_SCALE
    } else {
        proof {
            assert(0 <= (-vel) * dt <= MAX_SPEED * MAX_DT) by (nonlinear_arith)
                requires 0 < -vel <= MAX_SPEED && 0 <= dt <= MAX_DT;
        }
        pos - ((-vel) * dt) / TIME_SCALE
    }
}

/// One integrator pass over one entity: advance both coordinates of its
/// transform by its velocity times the tick delta. No mode awareness.
pub fn integrate(transform: &mut Transform, velocity: &Velocity, dt: i64)
    requires
        -(MAX_COORD + CURVE_BOUND) <= old(transform).x <= MAX_COORD + CURVE_BOUND,
        -(MAX_COORD + CURVE_BOUND) <= old(transform).y <= MAX_COORD + CURVE_BOUND,
        -MAX_SPEED <= velocity.x <= MAX_SPEED,
        -MAX_SPEED <= velocity.y <= MAX_SPEED,
        0 <= dt <= MAX_DT,
    ensures
        final(transform).x as int
            == integrate_axis_spec(old(transform).x as int, velocity.x as int, dt as int),
        final(transform).y as int
            == integrate_axis_spec(old(transform).y as int, velocity.y as int, dt as int),
{
    transform.x = integrate_axis(transform.x, velocity.x, dt);
    transform.y = integrate_axis(transform.y, velocity.y, dt);
}

/// The whole tick, as mathematical integers: one resolver pass followed by
/// one integrator pass over the same actor. The integrator only reads the
/// velocity the resolver just wrote, so any axis the resolver drove directly
/// (which it left at zero velocity) comes through integration untouched.
pub open spec fn tick_spec(s: SteeringState, tr: Transform, speed: int, dt: int, now: int) -> Resolved {
    let r = resolve_spec(s, tr, speed, now);
    Resolved {
        cell_x: r.cell_x,
        cell_y: r.cell_y,
        pos_x: integrate_axis_spec(r.pos_x, r.vel_x, dt),
        pos_y: integrate_axis_spec(r.pos_y, r.vel_y, dt),
        vel_x: r.vel_x,
        vel_y: r.vel_y,
    }
}

/// An actor the resolver accepts at absolute time `now`.
pub open spec fn actor_resolvable(a: Actor, now: int) -> bool {
    &&& steering_wf(a.steering)
    &&& in_world(a.transform.x as int)
    &&& in_world(a.transform.y as int)
    &&& airborne_time_ok(a.steering.mode, now)
}

/// `after` is `before` taken through one full tick (resolve, then
/// integrate) at speed `speed`, tick delta `dt` and absolute time `now`.
pub open spec fn ticked(before: Actor, after: Actor, speed: int, dt: int, now: int) -> bool {
    let r = tick_spec(before.steering, before.transform, speed, dt, now);
    &&& after.steering.current_cell.x as int == r.cell_x
    &&& after.steering.current_cell.y as int == r.cell_y
    &&& after.transform.x as int == r.pos_x
    &&& after.transform.y as int == r.pos_y
    &&& after.velocity.x as int == r.vel_x
    &&& after.velocity.y as int == r.vel_y
    &&& after.steering.destination_cell == before.steering.destination_cell
    &&& after.steering.direction == before.steering.direction
    &&& after.steering.mode == before.steering.mode
}

/// One full simulation tick for one actor: the resolver pass, then the
/// integrator pass, in that order.
pub fn tick_actor(actor: &mut Actor, config: &MovementConfig, dt: i64, now: i64)
    requires
        actor_resolvable(*old(actor), now as int),
        speed_ok(config.player_speed as int),
        0 <= dt <= MAX_DT,
        0 <= now <= MAX_TIME,
    ensures
        ticked(*old(actor), *final(actor), config.player_speed as int, dt as int, now as int),
        steering_wf(final(actor).steering),
{
    let mut s = actor.steering;
    let mut tr = actor.transform;
    let mut v = actor.velocity;
    resolve_motion(&mut s, &mut tr, &mut v, config, now);
    integrate(&mut tr, &v, dt);
    actor.steering = s;
    actor.transform = tr;
    actor.velocity = v;
}

/// Sets velocity (and, for airborne modes, height) for all entities with
/// steering: one resolver pass over every actor. Actors are independent: each
/// element's outcome is a function of that element alone.
pub struct MovementSystem;

impl MovementSystem {
    /// Resolve every actor in `actors` once, at absolute time `now`.
    pub fn run(&self, actors: &mut Vec<Actor>, config: &MovementConfig, now: i64)
        requires
            forall|k: int|
                0 <= k < old(actors)@.len() ==> actor_resolvable(old(actors)@[k], now as int),
            speed_ok(config.player_speed as int),
            0 <= now <= MAX_TIME,
        ensures
            final(actors)@.len() == old(actors)@.len(),
            forall|k: int| 0 <= k < old(actors)@.len() ==> {
                let before = old(actors)@[k];
                let after = #[trigger] final(actors)@[k];
                let r = resolve_spec(before.steering, before.transform, config.player_speed as int, now as int);
                &&& after.steering.current_cell.x as int == r.cell_x
                &&& after.steering.current_cell.y as int == r.cell_y
                &&& after.transform.x as int == r.pos_x
                &&& after.transform.y as int == r.pos_y
                &&& after.velocity.x as int == r.vel_x
                &&& after.velocity.y as int == r.vel_y
                &&& after.steering.destination_cell == before.steering.destination_cell
                &&& after.steering.direction == before.steering.direction
                &&& after.steering.mode == before.steering.mode
            },
    {
        let n = actors.len();
        let mut i: usize = 0;
        while i < n
            invariant
                i <= n,
                n == actors@.len(),
                n == old(actors)@.len(),
                speed_ok(config.player_speed as int),
                0 <= now <= MAX_TIME,
                forall|k: int| i <= k < n ==> actors@[k] == old(actors)@[k],
                forall|k: int|
                    0 <= k < n ==> actor_resolvable(old(actors)@[k], now as int),
                forall|k: int| 0 <= k < i ==> {
                    let before = old(actors)@[k];
                    let after = #[trigger] actors@[k];
                    let r = resolve_spec(before.steering, before.transform, config.player_speed as int, now as int);
                    &&& after.steering.current_cell.x as int == r.cell_x
                    &&& after.steering.current_cell.y as int == r.cell_y
                    &&& after.transform.x as int == r.pos_x
                    &&& after.transform.y as int == r.pos_y
                    &&& after.velocity.x as int == r.vel_x
                    &&& after.velocity.y as int == r.vel_y
                    &&& after.steering.destination_cell == before.steering.destination_cell
                    &&& after.steering.direction == before.steering.direction
                    &&& after.steering.mode == before.steering.mode
                },
            decreases n - i,
        {
            let mut a = actors[i];
            let mut s = a.steering;
            let mut tr = a.transform;
            let mut v = a.velocity;
            resolve_motion(&mut s, &mut tr, &mut v, config, now);
            a.steering = s;
            a.transform = tr;
            a.velocity = v;
            actors.set(i, a);
            i = i + 1;
        }
    }
}

/// For every entity with a velocity and a transform, updates the transform
/// according to the velocity. No knowledge of steering modes: it treats a
/// guided actor and a free projectile exactly alike.
pub struct VelocitySystem;

impl VelocitySystem {
    /// Integrate every entity in `movers` over a tick of `dt` milliseconds.
    pub fn run(&self, movers: &mut Vec<Mover>, dt: i64)
        requires
            forall|k: int| 0 <= k < old(movers)@.len() ==> {
                let m = #[trigger] old(movers)@[k];
                &&& in_world(m.transform.x as int)
                &&& in_world(m.transform.y as int)
                &&& -MAX_SPEED <= m.velocity.x <= MAX_SPEED
                &&& -MAX_SPEED <= m.velocity.y <= MAX_SPEED
            },
            0 <= dt <= MAX_DT,
        ensures
            final(movers)@.len() == old(movers)@.len(),
            forall|k: int| 0 <= k < old(movers)@.len() ==> {
                let before = old(movers)@[k];
                let after = #[trigger] final(movers)@[k];
                &&& after.transform.x as int
                    == integrate_axis_spec(before.transform.x as int, before.velocity.x as int, dt as int)
                &&& after.transform.y as int
                    == integrate_axis_spec(before.transform.y as int, before.velocity.y as int, dt as int)
                &&& after.velocity == before.velocity
            },
    {
        let n = movers.len();
        let mut i: usize = 0;
        while i < n
            invariant
                i <= n,
                n == movers@.len(),
                n == old(movers)@.len(),
                0 <= dt <= MAX_DT,
                forall|k: int| i <= k < n ==> movers@[k] == old(movers)@[k],
                forall|k: int| 0 <= k < n ==> {
                    let m = #[trigger] old(movers)@[k];
                    &&& in_world(m.transform.x as int)
                    &&& in_world(m.transform.y as int)
                    &&& -MAX_SPEED <= m.velocity.x <= MAX_SPEED
                    &&& -MAX_SPEED <= m.velocity.y <= MAX_SPEED
                },
                forall|k: int| 0 <= k < i ==> {
                    let before = old(movers)@[k];
                    let after = #[trigger] movers@[k];
                    &&& after.transform.x as int
                        == integrate_axis_spec(before.transform.x as int, before.velocity.x as int, dt as int)
                    &&& after.transform.y as int
                        == integrate_axis_spec(before.transform.y as int, before.velocity.y as int, dt as int)
                    &&& after.velocity == before.velocity
                },
            decreases n - i,
        {
            let mut m = movers[i];
            let mut tr = m.transform;
            integrate(&mut tr, &m.velocity, dt);
            m.transform = tr;
            movers.set(i, m);
            i = i + 1;
        }
    }
}

} // verus!
