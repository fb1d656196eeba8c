use vstd::prelude::*;

use crate::geometry::{floor_sqrt, in_range, isqrt, Vec2, WORLD_LIMIT};

verus! {

/// Downward acceleration of lobbed bodies, in milli-units per second squared.
pub const GRAVITY: i64 = 450_000;

/// Vertical launch speeds are drawn from this range, in milli-units per second.
pub const VERTICAL_SPEED_MIN: u64 = 80_000;

pub const VERTICAL_SPEED_MAX: u64 = 400_000;

/// Integer division that rounds toward zero.
pub open spec fn div_toward_zero(a: int, b: int) -> int {
    if a >= 0 {
        a / b
    } else {
        -((-a) / b)
    }
}

/// Gravity times the flight time of a body launched upward at `speed` from
/// `height` above the ground: the positive root of
/// `height + speed * t - gravity / 2 * t^2 = 0`, scaled by `gravity`, which is
/// `speed + sqrt(speed^2 + 2 * gravity * height)`. A negative discriminant
/// counts as zero and the result is at least one, so that the flight time
/// is always positive.
pub open spec fn flight_span(height: int, gravity: int, speed: int) -> int {
    let disc = speed * speed + 2 * gravity * height;
    let root = if disc > 0 {
        floor_sqrt(disc)
    } else {
        0
    };
    if speed + root >= 1 {
        speed + root
    } else {
        1
    }
}

/// The horizontal speed that covers `dx` during the flight described by
/// `span` (that is, `dx / (span / gravity)`), rounded toward zero.
pub open spec fn horizontal_speed(dx: int, gravity: int, span: int) -> int {
    div_toward_zero(dx * gravity, span)
}

/// The launch velocity that brings a body from `origin` to the ground at
/// `target_x`, for a given vertical launch speed.
pub open spec fn launch_velocity_spec(origin: Vec2, target_x: int, gravity: int, speed: int) -> (
    int,
    int,
) {
    (
        horizontal_speed(
            target_x - origin.x,
            gravity,
            flight_span(origin.y as int, gravity, speed),
        ),
        speed,
    )
}

/// Gravity times the flight time, see `flight_span`.
pub fn flight_time_span(height: i64, gravity: i64, speed: i64) -> (r: i64)
    requires
        in_range(height as int),
        0 < gravity <= WORLD_LIMIT,
        in_range(speed as int),
    ensures
        r == flight_span(height as int, gravity as int, speed as int),
        r >= 1,
{
    let h: i128 = height as i128;
    let g: i128 = gravity as i128;
    let v: i128 = speed as i128;
    assert(v * v <= WORLD_LIMIT * WORLD_LIMIT && v * v >= 0) by (nonlinear_arith)
        requires
            -WORLD_LIMIT <= v <= WORLD_LIMIT,
    ;
    assert(-WORLD_LIMIT * WORLD_LIMIT <= g * h <= WORLD_LIMIT * WORLD_LIMIT) by (nonlinear_arith)
        requires
            -WORLD_LIMIT <= h <= WORLD_LIMIT,
            0 < g <= WORLD_LIMIT,
    ;
    let gh: i128 = g * h;
    let disc: i128 = v * v + 2 * gh;
    assert(disc <= 3 * WORLD_LIMIT * WORLD_LIMIT);
    let root: i128 = if disc > 0 {
        isqrt(disc as u64) as i128
    } else {
        0
    };
    proof {
        assert(disc == speed * speed + 2 * gravity * height) by (nonlinear_arith)
            requires
                disc == v * v + 2 * gh,
                gh == g * h,
                g == gravity,
                h == height,
                v == speed,
        ;
        if disc > 0 {
            assert((disc as u64) as int == disc);
            assert(root == floor_sqrt(disc as int));
            assert(root * root <= disc);
            assert(root <= 4_294_967_296) by (nonlinear_arith)
                requires
                    root * root <= disc,
                    disc <= 3 * WORLD_LIMIT * WORLD_LIMIT,
                    root >= 0,
            ;
        }
    }
    if v + root >= 1 {
        (v + root) as i64
    } else {
        1
    }
}

/// The velocity, in milli-units per second, that lands a body launched from
/// `origin` with the given upward `speed` at horizontal position `target_x`.
pub fn launch_velocity(origin: Vec2, target_x: i64, gravity: i64, speed: i64) -> (r: Vec2)
    requires
        origin.in_world(),
        in_range(target_x as int),
        0 < gravity <= WORLD_LIMIT,
        in_range(speed as int),
    ensures
        (r.x as int, r.y as int) == launch_velocity_spec(
            origin,
            target_x as int,
            gravity as int,
            speed as int,
        ),
{
    let span = flight_time_span(origin.y, gravity, speed);
    let dx: i128 = target_x as i128 - origin.x as i128;
    let g: i128 = gravity as i128;
    let s: i128 = span as i128;
    let hx: i128 = if dx >= 0 {
        assert(0 <= dx * g <= 2 * WORLD_LIMIT * WORLD_LIMIT) by (nonlinear_arith)
            requires
                0 <= dx <= 2 * WORLD_LIMIT,
                0 < g <= WORLD_LIMIT,
        ;
        assert((dx * g) as int / (s as int) <= dx * g) by (nonlinear_arith)
            requires
                dx * g >= 0,
                s >= 1,
        ;
        (dx * g) / s
    } else {
        let m: i128 = -dx;
        assert(0 <= m * g <= 2 * WORLD_LIMIT * WORLD_LIMIT) by (nonlinear_arith)
            requires
                0 <= m <= 2 * WORLD_LIMIT,
                0 < g <= WORLD_LIMIT,
        ;
        assert((m * g) as int / (s as int) <= m * g) by (nonlinear_arith)
            requires
                m * g >= 0,
                s >= 1,
        ;
        assert(m * g == -(dx * g)) by (nonlinear_arith)
            requires
                m == -dx,
        ;
        -((m * g) / s)
    };
    Vec2 { x: hx as i64, y: speed }
}

} // verus!
