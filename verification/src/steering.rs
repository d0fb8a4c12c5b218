//! Per-actor steering state: direction intent, locomotion mode, and the pure
//! vertical curve that drives airborne motion.

use vstd::prelude::*;
use crate::grid::Pos;

verus! {

/// Desired travel direction on one axis: a sign in {-1, 0, +1}.
#[derive(Clone, Copy, PartialEq, Eq, Structural, Debug)]
pub enum AxisIntent {
    Negative,
    Neutral,
    Positive,
}

/// Desired travel direction on both axes, supplied by upstream control logic.
#[derive(Clone, Copy, PartialEq, Eq, Structural, Debug)]
pub struct DirectionIntent {
    pub x: AxisIntent,
    pub y: AxisIntent,
}

/// The sign of a direction intent: -1, 0 or +1.
pub open spec fn signum_spec(d: AxisIntent) -> int {
    match d {
        AxisIntent::Negative => -1,
        AxisIntent::Neutral => 0,
        AxisIntent::Positive => 1,
    }
}

/// A direction intent aligns with a positional delta exactly when the intent
/// is nonzero and shares the delta's sign. A zero intent, a zero delta, or a
/// delta whose sign disagrees with the intent all count as "target reached or
/// overshot on this axis".
pub open spec fn aligns_spec(d: AxisIntent, delta: int) -> bool {
    signum_spec(d) != 0 && signum_spec(d) * delta > 0
}

impl AxisIntent {
    /// The sign of this intent as an integer.
    pub fn signum(&self) -> (r: i64)
        ensures
            r == signum_spec(*self),
    {
        match self {
            AxisIntent::Negative => -1,
            AxisIntent::Neutral => 0,
            AxisIntent::Positive => 1,
        }
    }

    /// Whether this intent agrees in sign with the given positional delta.
    pub fn aligns_with(&self, delta: i64) -> (r: bool)
        ensures
            r == aligns_spec(*self, delta as int),
    {
        match self {
            AxisIntent::Negative => delta < 0,
            AxisIntent::Neutral => false,
            AxisIntent::Positive => delta > 0,
        }
    }
}

/// Longest supported airborne stretch, in milliseconds. Bounding the elapsed
/// time keeps the curve arithmetic inside `i64`.
pub const MAX_AIR_TIME: i64 = 1_000_000;

/// Downward acceleration while airborne, in milliunits per second squared.
pub const GRAVITY: i64 = 50_000;

/// Divisor turning `GRAVITY * t * t` (t in milliseconds) into milliunits:
/// 2 for the half in `g t^2 / 2`, times 1000^2 for ms^2 -> s^2.
pub const GRAVITY_DIV: i64 = 2_000_000;

/// Initial upward speed of a jump, in milliunits per millisecond.
pub const JUMP_IMPULSE: i64 = 15;

/// Bound on the magnitude of any vertical-curve value over the supported
/// airborne stretch.
pub const CURVE_BOUND: i64 = 40_000_000_000;

/// The per-actor locomotion mode. Exactly one variant is active at a time;
/// airborne variants carry the data that makes their vertical motion a pure
/// function of absolute time.
#[derive(Clone, Copy, PartialEq, Eq, Structural, Debug)]
pub enum SteeringMode {
    /// Resting on a surface; the vertical axis is locked to the cell center.
    Grounded,
    /// On a vertical traversal surface; the horizontal axis is locked.
    Climbing,
    /// Free fall: height is `start_height` plus a gravity curve of elapsed
    /// time since `start_time`.
    Falling { horizontal_drift: i64, start_height: i64, start_time: i64 },
    /// Jump: like `Falling`, with an initial upward impulse.
    Jumping { horizontal_drift: i64, start_height: i64, start_time: i64 },
}

/// Height change while falling, `t` milliseconds after the fall began:
/// a monotonically accelerating descent.
pub open spec fn fall_curve_spec(t: int) -> int {
    -((GRAVITY * (t * t)) / (GRAVITY_DIV as int))
}

/// Height change while jumping, `t` milliseconds after the jump began: an
/// initial upward impulse followed by the same gravity descent as a fall.
pub open spec fn jump_curve_spec(t: int) -> int {
    JUMP_IMPULSE * t - (GRAVITY * (t * t)) / (GRAVITY_DIV as int)
}

/// Height change of a mode `t` milliseconds after its reference time. A pure
/// function of the mode's variant and `t` alone: re-evaluating it at any past
/// `t` reproduces the historical height exactly, which is what makes rewind
/// correct. Grounded and climbing actors have no time-driven height change.
pub open spec fn vertical_curve_spec(mode: SteeringMode, t: int) -> int {
    match mode {
        SteeringMode::Grounded => 0,
        SteeringMode::Climbing => 0,
        SteeringMode::Falling { .. } => fall_curve_spec(t),
        SteeringMode::Jumping { .. } => jump_curve_spec(t),
    }
}

/// Whether a mode drives the vertical axis directly from time.
pub open spec fn is_airborne(mode: SteeringMode) -> bool {
    mode is Falling || mode is Jumping
}

/// Height change of `mode`, `t` milliseconds after its reference time.
pub fn vertical_curve(mode: &SteeringMode, t: i64) -> (r: i64)
    requires
        0 <= t <= MAX_AIR_TIME,
    ensures
        r == vertical_curve_spec(*mode, t as int),
        -CURVE_BOUND <= r <= CURVE_BOUND,
{
    proof {
        assert(0 <= t * t <= MAX_AIR_TIME * MAX_AIR_TIME) by (nonlinear_arith)
            requires 0 <= t <= MAX_AIR_TIME;
    }
    let tt: i64 = t * t;
    let descent: i64 = (GRAVITY * tt) / GRAVITY_DIV;
    proof {
        vstd::arithmetic::div_mod::lemma_div_pos_is_pos(GRAVITY * tt, GRAVITY_DIV as int);
        vstd::arithmetic::div_mod::lemma_div_is_ordered(
            GRAVITY * tt,
            GRAVITY * (MAX_AIR_TIME * MAX_AIR_TIME),
            GRAVITY_DIV as int,
        );
    }
    match mode {
        SteeringMode::Grounded => 0,
        SteeringMode::Climbing => 0,
        SteeringMode::Falling { .. } => -descent,
        SteeringMode::Jumping { .. } => JUMP_IMPULSE * t - descent,
    }
}

/// Composite per-actor steering record: where the actor is on the grid, where
/// it is headed, which way it wants to travel, and its locomotion mode.
#[derive(Clone, Copy, PartialEq, Eq, Structural, Debug)]
pub struct SteeringState {
    pub current_cell: Pos,
    pub destination_cell: Pos,
    pub direction: DirectionIntent,
    pub mode: SteeringMode,
}

impl SteeringState {
    /// A freshly spawned actor: at rest on the ground in `cell`, with no
    /// destination other than where it stands and no direction intent.
    pub fn new(cell: Pos) -> (r: SteeringState)
        ensures
            r.current_cell == cell,
            r.destination_cell == cell,
            r.direction == (DirectionIntent { x: AxisIntent::Neutral, y: AxisIntent::Neutral }),
            r.mode == SteeringMode::Grounded,
    {
        SteeringState {
            current_cell: cell,
            destination_cell: cell,
            direction: DirectionIntent { x: AxisIntent::Neutral, y: AxisIntent::Neutral },
            mode: SteeringMode::Grounded,
        }
    }

    /// The world-space centered coordinates of a grid cell, as a pair
    /// `(x, y)` in milliunits.
    pub fn to_centered_coords(&self, pos: Pos) -> (r: (i64, i64))
        requires
            crate::grid::pos_in_range(pos),
        ensures
            r.0 == crate::grid::center_spec(pos.x as int),
            r.1 == crate::grid::center_spec(pos.y as int),
    {
        (crate::grid::center(pos.x), crate::grid::center(pos.y))
    }
}

/// A steering mode flattened to plain values, as written by
/// [`SteeringMode::encode`]: a variant tag, then the airborne payload
/// (drift, anchor height, start time; all zero for the surface modes).
pub open spec fn encode_spec(m: SteeringMode) -> (u8, i64, i64, i64) {
    match m {
        SteeringMode::Grounded => (0u8, 0i64, 0i64, 0i64),
        SteeringMode::Climbing => (1u8, 0i64, 0i64, 0i64),
        SteeringMode::Falling { horizontal_drift, start_height, start_time } =>
            (2u8, horizontal_drift, start_height, start_time),
        SteeringMode::Jumping { horizontal_drift, start_height, start_time } =>
            (3u8, horizontal_drift, start_height, start_time),
    }
}

/// The steering mode a flattened record stands for, if its tag is one the
/// encoding uses.
pub open spec fn decode_spec(tag: u8, drift: i64, height: i64, time: i64) -> Option<SteeringMode> {
    if tag == 0 {
        Some(SteeringMode::Grounded)
    } else if tag == 1 {
        Some(SteeringMode::Climbing)
    } else if tag == 2 {
        Some(SteeringMode::Falling {
            horizontal_drift: drift,
            start_height: height,
            start_time: time,
        })
    } else if tag == 3 {
        Some(SteeringMode::Jumping {
            horizontal_drift: drift,
            start_height: height,
            start_time: time,
        })
    } else {
        None::<SteeringMode>
    }
}

impl SteeringMode {
    /// Flatten this mode to plain values for storage or transmission.
    pub fn encode(&self) -> (r: (u8, i64, i64, i64))
        ensures
            r == encode_spec(*self),
    {
        match *self {
            SteeringMode::Grounded => (0u8, 0i64, 0i64, 0i64),
            SteeringMode::Climbing => (1u8, 0i64, 0i64, 0i64),
            SteeringMode::Falling { horizontal_drift, start_height, start_time } =>
                (2u8, horizontal_drift, start_height, start_time),
            SteeringMode::Jumping { horizontal_drift, start_height, start_time } =>
                (3u8, horizontal_drift, start_height, start_time),
        }
    }

    /// Rebuild a mode from its flattened form; `None` for an unknown tag.
    pub fn decode(tag: u8, drift: i64, height: i64, time: i64) -> (r: Option<SteeringMode>)
        ensures
            r == decode_spec(tag, drift, height, time),
    {
        if tag == 0 {
            Some(SteeringMode::Grounded)
        } else if tag == 1 {
            Some(SteeringMode::Climbing)
        } else if tag == 2 {
            Some(SteeringMode::Falling {
                horizontal_drift: drift,
                start_height: height,
                start_time: time,
            })
        } else if tag == 3 {
            Some(SteeringMode::Jumping {
                horizontal_drift: drift,
                start_height: height,
                start_time: time,
            })
        } else {
            None
        }
    }
}

/// Encoding a mode and decoding the result yields the identical variant with
/// the identical payload.
pub proof fn lemma_mode_round_trip(m: SteeringMode)
    ensures
        ({
            let e = encode_spec(m);
            decode_spec(e.0, e.1, e.2, e.3) == Some(m)
        }),
{
}

/// Exactly one locomotion mode is active at a time: of the four mode
/// predicates, precisely one holds of any mode value.
pub proof fn lemma_mode_exclusive(mode: SteeringMode)
    ensures
        (mode is Grounded) ^ (mode is Climbing) ^ (mode is Falling) ^ (mode is Jumping),
{
}

/// The vertical curve has no hidden state: it reads nothing of an airborne
/// mode but its variant, so two falls started at different heights or times
/// trace the same height-change curve.
pub proof fn lemma_curve_ignores_payload(m1: SteeringMode, m2: SteeringMode, t: int)
    requires
        m1 is Falling && m2 is Falling || m1 is Jumping && m2 is Jumping,
    ensures
        vertical_curve_spec(m1, t) == vertical_curve_spec(m2, t),
{
}

} // verus!
