//! Integer screen-space geometry: points, displacement vectors, and the
//! exact integer predicates behind the drag and gesture thresholds.

use vstd::prelude::*;

verus! {

/// Largest coordinate magnitude the library accepts for a screen position.
/// Bounding coordinates keeps every derived product (squared distances,
/// cross products scaled by the rotation-threshold denominator) well inside
/// the fixed-width integer ranges used by the executable code.
pub const COORD_LIMIT: i64 = 1_000_000;

/// Taxicab (Manhattan) distance a pointer must exceed, measured from the
/// press origin, before a drag starts.
pub const DRAG_THRESHOLD_TAXICAB: i64 = 3;

/// Change of inter-touch distance (in coordinate units) beyond which a
/// two-touch gesture becomes a zoom.
pub const ZOOM_THRESHOLD: i64 = 60;

/// Shift of the inter-touch midpoint (in coordinate units) beyond which a
/// two-touch gesture becomes a tilt.
pub const TILT_THRESHOLD: i64 = 60;

/// `ROT_TAN_NUM / ROT_TAN_DEN` is a rational stand-in for `tan` of the
/// rotation threshold of 0.1 radians (`tan 0.1 = 0.10033467...`); the pair
/// lets the angle comparison be done in integers. The numerator is rounded
/// up, so the effective threshold is `atan(0.100335) = 0.10000033` radians.
pub const ROT_TAN_NUM: i64 = 100_335;
/// Denominator of the rational stand-in for `tan` of the rotation threshold.
pub const ROT_TAN_DEN: i64 = 1_000_000;

/// A screen position in integer (pixel) coordinates. Doubled coordinates
/// (sums of two positions) are also carried in this type where a midpoint
/// must stay exact; such uses say so in their names.
#[derive(Clone, Copy, Debug, PartialEq, Eq, Structural)]
pub struct Point {
    pub x: i64,
    pub y: i64,
}

/// A displacement between two screen positions.
#[derive(Clone, Copy, Debug, PartialEq, Eq, Structural)]
pub struct Delta {
    pub dx: i64,
    pub dy: i64,
}

pub open spec fn abs_int(v: int) -> int {
    if v < 0 {
        -v
    } else {
        v
    }
}

/// A position the library accepts: both coordinates within `COORD_LIMIT`.
pub open spec fn point_in_bounds(p: Point) -> bool {
    &&& -COORD_LIMIT <= p.x <= COORD_LIMIT
    &&& -COORD_LIMIT <= p.y <= COORD_LIMIT
}

/// A doubled position (sum of two accepted positions).
pub open spec fn point_in_bounds2(p: Point) -> bool {
    &&& -2 * COORD_LIMIT <= p.x <= 2 * COORD_LIMIT
    &&& -2 * COORD_LIMIT <= p.y <= 2 * COORD_LIMIT
}

/// A displacement between two accepted positions.
pub open spec fn delta_in_bounds(d: Delta) -> bool {
    &&& -2 * COORD_LIMIT <= d.dx <= 2 * COORD_LIMIT
    &&& -2 * COORD_LIMIT <= d.dy <= 2 * COORD_LIMIT
}

/// Taxicab (Manhattan) distance between two positions.
pub open spec fn taxicab(a: Point, b: Point) -> int {
    abs_int(a.x - b.x) + abs_int(a.y - b.y)
}

/// Squared Euclidean distance between two positions.
pub open spec fn dist_sq(a: Point, b: Point) -> int {
    let dx = a.x - b.x;
    let dy = a.y - b.y;
    dx * dx + dy * dy
}

/// The doubled midpoint of two positions: the sum, which is exactly twice
/// the arithmetic mean and needs no rounding.
pub open spec fn midpoint_doubled_spec(a: Point, b: Point) -> Point {
    Point { x: (a.x + b.x) as i64, y: (a.y + b.y) as i64 }
}

/// The displacement from `b` to `a`.
pub open spec fn delta_of(a: Point, b: Point) -> Delta {
    Delta { dx: (a.x - b.x) as i64, dy: (a.y - b.y) as i64 }
}

pub fn taxicab_distance(a: Point, b: Point) -> (r: i64)
    requires
        point_in_bounds(a),
        point_in_bounds(b),
    ensures
        r == taxicab(a, b),
{
    let dx = if a.x >= b.x {
        a.x - b.x
    } else {
        b.x - a.x
    };
    let dy = if a.y >= b.y {
        a.y - b.y
    } else {
        b.y - a.y
    };
    dx + dy
}

pub fn distance_squared(a: Point, b: Point) -> (r: u64)
    requires
        point_in_bounds(a),
        point_in_bounds(b),
    ensures
        r == dist_sq(a, b),
        r <= 8_000_000_000_000,
{
    let dx = a.x - b.x;
    let dy = a.y - b.y;
    proof {
        assert(dx * dx <= 4_000_000_000_000 && dx * dx >= 0) by (nonlinear_arith)
            requires
                -2_000_000 <= dx <= 2_000_000,
        ;
        assert(dy * dy <= 4_000_000_000_000 && dy * dy >= 0) by (nonlinear_arith)
            requires
                -2_000_000 <= dy <= 2_000_000,
        ;
    }
    (dx * dx + dy * dy) as u64
}

pub fn midpoint_doubled(a: Point, b: Point) -> (r: Point)
    requires
        point_in_bounds(a),
        point_in_bounds(b),
    ensures
        r == midpoint_doubled_spec(a, b),
        point_in_bounds2(r),
{
    Point { x: a.x + b.x, y: a.y + b.y }
}

pub fn point_delta(a: Point, b: Point) -> (r: Delta)
    requires
        point_in_bounds(a),
        point_in_bounds(b),
    ensures
        r == delta_of(a, b),
        delta_in_bounds(r),
{
    Delta { dx: a.x - b.x, dy: a.y - b.y }
}

/// `point_delta` for doubled-coordinate points, whose components may reach
/// twice the coordinate limit.
pub fn point_delta2(a: Point, b: Point) -> (r: Delta)
    requires
        point_in_bounds2(a),
        point_in_bounds2(b),
    ensures
        r == delta_of(a, b),
{
    Delta { dx: a.x - b.x, dy: a.y - b.y }
}

/// Whether the inter-touch distance has moved more than `ZOOM_THRESHOLD`
/// away from the baseline distance, expressed over squared distances.
///
/// For nonnegative `q_new` and `q_old` this integer formula is equivalent to
/// `|sqrt(q_new) - sqrt(q_old)| > ZOOM_THRESHOLD`: squaring that inequality
/// gives `q_new + q_old - ZOOM_THRESHOLD^2 > 2 * sqrt(q_new * q_old)`, whose
/// left side must be positive and whose second squaring is exact.
pub open spec fn zoom_exceeded(q_new: int, q_old: int) -> bool {
    let l = q_new + q_old - ZOOM_THRESHOLD * ZOOM_THRESHOLD;
    l > 0 && l * l > 4 * (q_new * q_old)
}

pub fn zoom_threshold_crossed(q_new: u64, q_old: u64) -> (r: bool)
    requires
        q_new <= 8_000_000_000_000,
        q_old <= 8_000_000_000_000,
    ensures
        r == zoom_exceeded(q_new as int, q_old as int),
{
    let qn = q_new as i128;
    let qo = q_old as i128;
    let l = qn + qo - 3600;
    proof {
        assert(ZOOM_THRESHOLD * ZOOM_THRESHOLD == 3600);
        assert(l * l <= 260_000_000_000_000_000_000_000_000) by (nonlinear_arith)
            requires
                -4000 <= l <= 16_000_000_000_000,
        ;
        assert(qn * qo <= 64_000_000_000_000_000_000_000_000 && qn * qo >= 0)
            by (nonlinear_arith)
            requires
                0 <= qn <= 8_000_000_000_000,
                0 <= qo <= 8_000_000_000_000,
        ;
    }
    let prod = qn * qo;
    l > 0 && l * l > 4 * prod
}

/// Whether the doubled midpoint has shifted more than `TILT_THRESHOLD` from
/// the doubled baseline midpoint. Working in doubled coordinates doubles the
/// threshold, so the squared shift is compared against `(2 * TILT_THRESHOLD)^2`.
pub open spec fn tilt_exceeded(m2_new: Point, m2_old: Point) -> bool {
    let dx = m2_new.x - m2_old.x;
    let dy = m2_new.y - m2_old.y;
    dx * dx + dy * dy > 4 * TILT_THRESHOLD * TILT_THRESHOLD
}

pub fn tilt_threshold_crossed(m2_new: Point, m2_old: Point) -> (r: bool)
    requires
        point_in_bounds2(m2_new),
        point_in_bounds2(m2_old),
    ensures
        r == tilt_exceeded(m2_new, m2_old),
{
    let dx = m2_new.x - m2_old.x;
    let dy = m2_new.y - m2_old.y;
    proof {
        assert(dx * dx <= 16_000_000_000_000 && dx * dx >= 0) by (nonlinear_arith)
            requires
                -4_000_000 <= dx <= 4_000_000,
        ;
        assert(dy * dy <= 16_000_000_000_000 && dy * dy >= 0) by (nonlinear_arith)
            requires
                -4_000_000 <= dy <= 4_000_000,
        ;
    }
    dx * dx + dy * dy > 4 * TILT_THRESHOLD * TILT_THRESHOLD
}

pub open spec fn is_zero_delta(v: Delta) -> bool {
    v.dx == 0 && v.dy == 0
}

/// Cross product of two displacement vectors; its sign tells on which side
/// of `a` the vector `b` lies.
pub open spec fn cross(a: Delta, b: Delta) -> int {
    a.dx * b.dy - a.dy * b.dx
}

/// Dot product of two displacement vectors.
pub open spec fn dot(a: Delta, b: Delta) -> int {
    a.dx * b.dx + a.dy * b.dy
}

/// Index of the band a vector's direction angle falls into, ordered as the
/// angle values of the two-argument arctangent are ordered on `(-pi, pi]`:
/// the open lower half-plane (angles in `(-pi, 0)`), then the positive x
/// axis (angle `0`, which is also the angle assigned to the zero vector),
/// then the open upper half-plane (angles in `(0, pi)`), then the negative
/// x axis (angle `pi`). Two nonzero vectors in the same open half-plane are
/// ordered by the sign of their cross product.
pub open spec fn angle_region(v: Delta) -> int {
    if v.dy < 0 {
        0
    } else if v.dy == 0 && v.dx >= 0 {
        1
    } else if v.dy > 0 {
        2
    } else {
        3
    }
}

/// Whether the direction angle of `v` itself exceeds the rotation threshold
/// in magnitude: true unless `v` lies in the narrow cone around the positive
/// x axis where `|dy| / dx` stays within `tan` of the threshold (the zero
/// vector has angle `0` and never exceeds it).
pub open spec fn abs_angle_exceeds_rot(v: Delta) -> bool {
    if v.dx <= 0 {
        !is_zero_delta(v)
    } else {
        abs_int(v.dy as int) * ROT_TAN_DEN > v.dx * ROT_TAN_NUM
    }
}

/// Whether the raw difference of the two direction angles — the value of
/// `atan2` for `d_new` minus the value for `d_old`, including the jump of
/// nearly `2 * pi` when the pair straddles the negative x axis — exceeds the
/// rotation threshold of 0.1 radians in magnitude.
///
/// The decision is exact integer geometry. With both vectors nonzero and not
/// collinear, the raw difference exceeds the threshold when either
/// - the unsigned angle between the vectors exceeds it (`separated`): the
///   dot product is not positive (angle at least a right angle), or the
///   tangent comparison `|cross| / dot > tan(0.1)` holds; or
/// - the raw difference wrapped past `pi` in magnitude (`wrapped`), which is
///   the case exactly when its sign — read off the angle-region order —
///   disagrees with the sign of the cross product; a wrapped difference
///   always exceeds the threshold.
pub open spec fn rotation_exceeded(d_new: Delta, d_old: Delta) -> bool {
    if is_zero_delta(d_old) {
        abs_angle_exceeds_rot(d_new)
    } else if is_zero_delta(d_new) {
        abs_angle_exceeds_rot(d_old)
    } else {
        let c = cross(d_old, d_new);
        let dt = dot(d_old, d_new);
        if c == 0 {
            dt < 0
        } else {
            let wrapped = (c > 0 && angle_region(d_new) < angle_region(d_old)) || (c < 0
                && angle_region(d_new) > angle_region(d_old));
            let separated = dt <= 0 || abs_int(c) * ROT_TAN_DEN > dt * ROT_TAN_NUM;
            wrapped || separated
        }
    }
}

fn abs_angle_exceeds_rot_exec(v: Delta) -> (r: bool)
    requires
        delta_in_bounds(v),
    ensures
        r == abs_angle_exceeds_rot(v),
{
    if v.dx <= 0 {
        !(v.dx == 0 && v.dy == 0)
    } else {
        let ay = if v.dy >= 0 {
            v.dy
        } else {
            -v.dy
        };
        proof {
            assert(ay * ROT_TAN_DEN <= 2_000_000_000_000_000_000) by (nonlinear_arith)
                requires
                    0 <= ay <= 2_000_000,
                ;
            assert(v.dx * ROT_TAN_NUM <= 2_000_000_000_000_000_000) by (nonlinear_arith)
                requires
                    0 <= v.dx <= 2_000_000,
                ;
        }
        ay * ROT_TAN_DEN > v.dx * ROT_TAN_NUM
    }
}

pub fn rotation_threshold_crossed(d_new: Delta, d_old: Delta) -> (r: bool)
    requires
        delta_in_bounds(d_new),
        delta_in_bounds(d_old),
    ensures
        r == rotation_exceeded(d_new, d_old),
{
    if d_old.dx == 0 && d_old.dy == 0 {
        abs_angle_exceeds_rot_exec(d_new)
    } else if d_new.dx == 0 && d_new.dy == 0 {
        abs_angle_exceeds_rot_exec(d_old)
    } else {
        proof {
            assert forall|a: i64, b: i64|
                -2_000_000 <= a <= 2_000_000 && -2_000_000 <= b <= 2_000_000 implies -4_000_000_000_000
                <= #[trigger] (a * b) <= 4_000_000_000_000 by {
                assert(-4_000_000_000_000 <= a * b <= 4_000_000_000_000) by (nonlinear_arith)
                    requires
                        -2_000_000 <= a <= 2_000_000,
                        -2_000_000 <= b <= 2_000_000,
                ;
            }
        }
        let c: i128 = (d_old.dx as i128) * (d_new.dy as i128) - (d_old.dy as i128) * (d_new.dx
            as i128);
        let dt: i128 = (d_old.dx as i128) * (d_new.dx as i128) + (d_old.dy as i128) * (d_new.dy
            as i128);
        if c == 0 {
            dt < 0
        } else {
            let region_new = angle_region_exec(d_new);
            let region_old = angle_region_exec(d_old);
            let wrapped = (c > 0 && region_new < region_old) || (c < 0 && region_new > region_old);
            let ac = if c >= 0 {
                c
            } else {
                -c
            };
            proof {
                assert(ac * (ROT_TAN_DEN as i128) <= 8_000_000_000_000_000_000_000_000)
                    by (nonlinear_arith)
                    requires
                        0 <= ac <= 8_000_000_000_000,
                ;
                assert(dt * (ROT_TAN_NUM as i128) <= 8_000_000_000_000_000_000_000_000
                    && dt * (ROT_TAN_NUM as i128) >= -8_000_000_000_000_000_000_000_000)
                    by (nonlinear_arith)
                    requires
                        -8_000_000_000_000 <= dt <= 8_000_000_000_000,
                ;
            }
            let separated = dt <= 0 || ac * (ROT_TAN_DEN as i128) > dt * (ROT_TAN_NUM as i128);
            wrapped || separated
        }
    }
}

fn angle_region_exec(v: Delta) -> (r: u8)
    ensures
        r == angle_region(v),
{
    if v.dy < 0 {
        0
    } else if v.dy == 0 && v.dx >= 0 {
        1
    } else if v.dy > 0 {
        2
    } else {
        3
    }
}

} // verus!
