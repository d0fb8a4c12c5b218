use grid_motion::config::MovementConfig;
use grid_motion::grid::{center, Pos, CELL_SIZE};
use grid_motion::movement::{
    integrate, resolve_motion, tick_actor, Actor, Mover, MovementSystem, Transform, Velocity,
    VelocitySystem,
};
use grid_motion::steering::{
    vertical_curve, AxisIntent, DirectionIntent, SteeringMode, SteeringState,
};

fn grounded_actor(cur: Pos, dest: Pos, dir: DirectionIntent) -> Actor {
    Actor {
        steering: SteeringState {
            current_cell: cur,
            destination_cell: dest,
            direction: dir,
            mode: SteeringMode::Grounded,
        },
        transform: Transform { x: center(cur.x), y: center(cur.y) },
        velocity: Velocity { x: 0, y: 0 },
    }
}

#[test]
fn cell_centers() {
    assert_eq!(CELL_SIZE, 1000);
    assert_eq!(center(0), 500);
    assert_eq!(center(3), 3500);
    assert_eq!(center(-1), -500);
}

#[test]
fn grounded_walk_converges_without_overshoot() {
    // direction +x, from cell 0 toward cell 3, speed 2 cells/s, ticks of 0.1 s
    let dir = DirectionIntent { x: AxisIntent::Positive, y: AxisIntent::Neutral };
    let mut a = grounded_actor(Pos { x: 0, y: 0 }, Pos { x: 3, y: 0 }, dir);
    let config = MovementConfig { player_speed: 2000 };
    let target = center(3);
    let mut now: i64 = 0;
    let mut ticks: usize = 0;
    loop {
        let before = a.transform.x;
        tick_actor(&mut a, &config, 100, now);
        now += 100;
        ticks += 1;
        assert!(a.transform.x <= target, "overshot the destination center");
        if a.transform.x == before && a.velocity.x == 0 {
            break;
        }
        assert!(ticks < 100, "walk did not converge");
    }
    assert_eq!(a.transform.x, target);
    assert_eq!(a.velocity.x, 0);
    assert_eq!(a.steering.current_cell.x, 3);
    // every tick advanced by exactly speed * dt until arrival
    let mut b = grounded_actor(Pos { x: 0, y: 0 }, Pos { x: 3, y: 0 }, dir);
    tick_actor(&mut b, &config, 100, 0);
    assert_eq!(b.transform.x, 700);
}

#[test]
fn grounded_locks_vertical_axis() {
    let dir = DirectionIntent { x: AxisIntent::Positive, y: AxisIntent::Neutral };
    let mut a = grounded_actor(Pos { x: 0, y: 2 }, Pos { x: 5, y: 2 }, dir);
    a.transform.y = 9999; // disturbed by something upstream
    let config = MovementConfig { player_speed: 1500 };
    for tick in 0..20 {
        tick_actor(&mut a, &config, 50, tick * 50);
        assert_eq!(a.transform.y, center(2));
        assert_eq!(a.velocity.y, 0);
    }
}

#[test]
fn climbing_locks_horizontal_axis_and_climbs() {
    let dir = DirectionIntent { x: AxisIntent::Neutral, y: AxisIntent::Positive };
    let mut a = Actor {
        steering: SteeringState {
            current_cell: Pos { x: 1, y: 0 },
            destination_cell: Pos { x: 1, y: 2 },
            direction: dir,
            mode: SteeringMode::Climbing,
        },
        transform: Transform { x: 1499, y: center(0) },
        velocity: Velocity { x: 0, y: 0 },
    };
    let config = MovementConfig { player_speed: 1000 };
    let mut now: i64 = 0;
    for _ in 0..40 {
        tick_actor(&mut a, &config, 100, now);
        now += 100;
        assert_eq!(a.transform.x, center(1));
        assert_eq!(a.velocity.x, 0);
        assert!(a.transform.y <= center(2));
    }
    assert_eq!(a.transform.y, center(2));
    assert_eq!(a.velocity.y, 0);
    assert_eq!(a.steering.current_cell.y, 2);
}

#[test]
fn idempotent_fixed_point() {
    let dir = DirectionIntent { x: AxisIntent::Neutral, y: AxisIntent::Neutral };
    let mut one = grounded_actor(Pos { x: 2, y: 3 }, Pos { x: 2, y: 3 }, dir);
    one.transform = Transform { x: 123, y: 456 };
    let config = MovementConfig { player_speed: 2000 };
    tick_actor(&mut one, &config, 100, 0);

    let mut many = grounded_actor(Pos { x: 2, y: 3 }, Pos { x: 2, y: 3 }, dir);
    many.transform = Transform { x: 123, y: 456 };
    let mut now: i64 = 0;
    for i in 0..1000 {
        // deltas and times vary; the fixed point must not care
        tick_actor(&mut many, &config, 37 + (i % 5), now);
        now += 41;
    }
    assert_eq!(one.transform, many.transform);
    assert_eq!(one.velocity, many.velocity);
    assert_eq!(one.transform, Transform { x: center(2), y: center(3) });
    assert_eq!(one.velocity, Velocity { x: 0, y: 0 });
}

#[test]
fn falling_height_is_pure_in_time() {
    let mode = SteeringMode::Falling { horizontal_drift: 0, start_height: 5500, start_time: 1000 };
    let mut a = Actor {
        steering: SteeringState {
            current_cell: Pos { x: 0, y: 5 },
            destination_cell: Pos { x: 0, y: 5 },
            direction: DirectionIntent { x: AxisIntent::Neutral, y: AxisIntent::Neutral },
            mode,
        },
        transform: Transform { x: 500, y: 5500 },
        velocity: Velocity { x: 0, y: 0 },
    };
    let config = MovementConfig { player_speed: 2000 };

    // forward: 200 ms into the fall, drop = 50_000 * 200^2 / 2_000_000 = 1000
    tick_actor(&mut a, &config, 100, 1200);
    let forward_height = a.transform.y;
    assert_eq!(forward_height, 4500);
    assert_eq!(a.velocity.y, 0);

    // run further forward, then rewind to the same instant: identical height
    tick_actor(&mut a, &config, 100, 1400);
    tick_actor(&mut a, &config, 100, 1200);
    assert_eq!(a.transform.y, forward_height);
}

#[test]
fn vertical_curve_exact_values() {
    let fall = SteeringMode::Falling { horizontal_drift: 0, start_height: 0, start_time: 0 };
    let jump = SteeringMode::Jumping { horizontal_drift: 0, start_height: 0, start_time: 0 };
    assert_eq!(vertical_curve(&fall, 0), 0);
    assert_eq!(vertical_curve(&fall, 200), -1000);
    assert_eq!(vertical_curve(&fall, 1000), -25000);
    // jump: 15 * t - 50_000 * t^2 / 2_000_000
    assert_eq!(vertical_curve(&jump, 0), 0);
    assert_eq!(vertical_curve(&jump, 100), 1250);
    assert_eq!(vertical_curve(&jump, 300), 2250); // apex at 0.3 s
    assert_eq!(vertical_curve(&jump, 600), 0); // back at launch height
    assert_eq!(vertical_curve(&grounded_mode(), 500), 0);
}

fn grounded_mode() -> SteeringMode {
    SteeringMode::Grounded
}

#[test]
fn jumping_overrides_vertical_velocity() {
    let mode = SteeringMode::Jumping { horizontal_drift: 0, start_height: 500, start_time: 0 };
    let mut s = SteeringState {
        current_cell: Pos { x: 0, y: 0 },
        destination_cell: Pos { x: 0, y: 0 },
        direction: DirectionIntent { x: AxisIntent::Neutral, y: AxisIntent::Neutral },
        mode,
    };
    let mut tr = Transform { x: 500, y: 500 };
    let mut v = Velocity { x: 0, y: 4444 };
    let config = MovementConfig { player_speed: 2000 };
    resolve_motion(&mut s, &mut tr, &mut v, &config, 100);
    assert_eq!(v.y, 0);
    assert_eq!(tr.y, 500 + 1250);
}

#[test]
fn determinism_over_a_sample_sequence() {
    let dir = DirectionIntent { x: AxisIntent::Positive, y: AxisIntent::Neutral };
    let mut a = grounded_actor(Pos { x: 0, y: 0 }, Pos { x: 7, y: 0 }, dir);
    let mut b = grounded_actor(Pos { x: 0, y: 0 }, Pos { x: 7, y: 0 }, dir);
    let config = MovementConfig { player_speed: 1700 };
    let samples = [(100, 0), (30, 30), (170, 200), (100, 300), (16, 316), (16, 332)];
    for (dt, now) in samples {
        tick_actor(&mut a, &config, dt, now);
    }
    for (dt, now) in samples {
        tick_actor(&mut b, &config, dt, now);
    }
    assert_eq!(a.steering, b.steering);
    assert_eq!(a.transform, b.transform);
    assert_eq!(a.velocity, b.velocity);
}

#[test]
fn integrator_advances_by_velocity_times_dt() {
    let mut tr = Transform { x: 1000, y: -500 };
    let v = Velocity { x: 5000, y: -2500 };
    integrate(&mut tr, &v, 100);
    assert_eq!(tr, Transform { x: 1500, y: -750 });
}

#[test]
fn integrator_is_independent_of_other_entities() {
    // a free projectile with velocity (5, 0) cells/s, among steered actors
    let projectile = Mover {
        transform: Transform { x: 0, y: 0 },
        velocity: Velocity { x: 5000, y: 0 },
    };
    let other = Mover {
        transform: Transform { x: 777, y: 888 },
        velocity: Velocity { x: -4000, y: 250 },
    };
    let mut crowd = vec![other, projectile, other];
    VelocitySystem.run(&mut crowd, 100);

    let mut alone = vec![projectile];
    VelocitySystem.run(&mut alone, 100);

    assert_eq!(crowd[1].transform, alone[0].transform);
    assert_eq!(crowd[1].transform.x, 500); // exactly 5 * dt cells advanced
    assert_eq!(crowd[0].transform, Transform { x: 377, y: 913 });
}

#[test]
fn movement_system_resolves_each_actor() {
    let walker = grounded_actor(
        Pos { x: 0, y: 0 },
        Pos { x: 2, y: 0 },
        DirectionIntent { x: AxisIntent::Positive, y: AxisIntent::Neutral },
    );
    let idler = grounded_actor(
        Pos { x: 4, y: 1 },
        Pos { x: 4, y: 1 },
        DirectionIntent { x: AxisIntent::Neutral, y: AxisIntent::Neutral },
    );
    let mut actors = vec![walker, idler];
    let config = MovementConfig { player_speed: 2000 };
    MovementSystem.run(&mut actors, &config, 0);
    assert_eq!(actors[0].velocity.x, 2000);
    assert_eq!(actors[1].velocity, Velocity { x: 0, y: 0 });
    assert_eq!(actors[1].transform, Transform { x: center(4), y: center(1) });
}

#[test]
fn negative_direction_walks_down() {
    let dir = DirectionIntent { x: AxisIntent::Negative, y: AxisIntent::Neutral };
    let mut a = grounded_actor(Pos { x: 0, y: 0 }, Pos { x: -2, y: 0 }, dir);
    let config = MovementConfig { player_speed: 1000 };
    tick_actor(&mut a, &config, 100, 0);
    assert_eq!(a.velocity.x, -1000);
    assert_eq!(a.transform.x, 400);
}

#[test]
fn mode_exclusivity_and_round_trip() {
    let modes = [
        SteeringMode::Grounded,
        SteeringMode::Climbing,
        SteeringMode::Falling { horizontal_drift: -7, start_height: 123, start_time: 456 },
        SteeringMode::Jumping { horizontal_drift: 8, start_height: -9, start_time: 10 },
    ];
    let mut seen_tags = vec![];
    for m in modes {
        // exactly one variant is active: the four predicates below are
        // mutually exclusive by construction of the enum
        let kinds = [
            matches!(m, SteeringMode::Grounded),
            matches!(m, SteeringMode::Climbing),
            matches!(m, SteeringMode::Falling { .. }),
            matches!(m, SteeringMode::Jumping { .. }),
        ];
        assert_eq!(kinds.iter().filter(|k| **k).count(), 1);
        // flattening and rebuilding yields the identical variant and payload
        let (tag, drift, height, time) = m.encode();
        assert_eq!(SteeringMode::decode(tag, drift, height, time), Some(m));
        seen_tags.push(tag);
    }
    seen_tags.sort();
    seen_tags.dedup();
    assert_eq!(seen_tags.len(), 4);
    assert_eq!(SteeringMode::decode(9, 0, 0, 0), None);
}

#[test]
fn new_steering_state_is_at_rest() {
    let s = SteeringState::new(Pos { x: 5, y: -2 });
    assert_eq!(s.current_cell, Pos { x: 5, y: -2 });
    assert_eq!(s.destination_cell, s.current_cell);
    assert_eq!(s.mode, SteeringMode::Grounded);
    assert_eq!(s.direction.x, AxisIntent::Neutral);
    assert_eq!(s.direction.y, AxisIntent::Neutral);
    let (cx, cy) = s.to_centered_coords(s.current_cell);
    assert_eq!((cx, cy), (5500, -1500));
}
