//! Marker triangulation: recovering the robot's pose from one frame of
//! unlabelled infra-red blob centroids. Three markers sit in a tight
//! triangle; a fourth, farther off, gives the heading.
use vstd::prelude::*;
use crate::angle::MICRO;
use crate::fixed::{div_floor, isqrt};
use crate::navigation::Pose2d;
use crate::trig::{atan2, atan2_of};

verus! {

/// A point: in a frame, in milli-pixels; once normalised, in micro-units of
/// the frame's shorter side.
#[derive(Debug, Clone, Copy, PartialEq, Eq, Structural)]
pub struct Point2 {
    pub x: i64,
    pub y: i64,
}

impl Point2 {
    pub fn new(x: i64, y: i64) -> (r: Point2)
        ensures
            r == (Point2 { x, y }),
    {
        Point2 { x, y }
    }
}

/// Largest frame side accepted, in milli-pixels.
pub const FRAME_LIMIT: i64 = 0x8000_0000;

/// Two triangle markers lie within this normalised distance (0.02) of the
/// anchor marker.
pub const TRIANGLE_REJECTION_DISTANCE: i64 = 20_000;

/// The fixed lever arm from the triangle's centre to the robot's reference
/// point along the heading (0.058 normalised units).
pub const TRIANGLE_TO_ROBOT: i64 = 58_000;

/// One frame from the marker camera. Sizes and points are in milli-pixels,
/// image axes x right and y down.
#[derive(Debug)]
pub struct IrTrackers {
    pub frame_time: u64,
    pub point_count: usize,
    pub height: i64,
    pub width: i64,
    pub channels: i32,
    pub using_otsu_thresholding: bool,
    pub binarization_threshold: i32,
    pub points: Vec<Point2>,
}

pub open spec fn dist2(a: Point2, b: Point2) -> int {
    (a.x - b.x) * (a.x - b.x) + (a.y - b.y) * (a.y - b.y)
}

/// Point `a` comes before point `b` in the order of distance from point `c`,
/// ties broken by position in the frame.
pub open spec fn nearer(pts: Seq<Point2>, c: int, a: int, b: int) -> bool {
    let da = dist2(pts[c], pts[a]);
    let db = dist2(pts[c], pts[b]);
    da < db || (da == db && a < b)
}

/// `j0` to `j3` are the four points nearest to point `c`, in order.
pub open spec fn nearest_four(pts: Seq<Point2>, c: int, j0: int, j1: int, j2: int, j3: int) -> bool {
    &&& 0 <= j0 < pts.len() && 0 <= j1 < pts.len() && 0 <= j2 < pts.len() && 0 <= j3 < pts.len()
    &&& nearer(pts, c, j0, j1) && nearer(pts, c, j1, j2) && nearer(pts, c, j2, j3)
    &&& forall|m: int|
        0 <= m < pts.len() && m != j0 && m != j1 && m != j2 && m != j3 ==> #[trigger] nearer(
            pts,
            c,
            j3,
            m,
        )
}

/// `r` is the integer square root of `n`.
pub open spec fn is_floor_sqrt(n: int, r: int) -> bool {
    0 <= r && r * r <= n < (r + 1) * (r + 1)
}

/// The largest `r` whose square is at most `n`.
pub open spec fn floor_sqrt(n: int) -> int {
    choose|r: int| #[trigger] is_floor_sqrt(n, r)
}

pub open spec fn centroid(p: Point2, a: Point2, b: Point2) -> (int, int) {
    ((p.x + a.x + b.x) / 3, (p.y + a.y + b.y) / 3)
}

/// The vector from the triangle's centre to the heading marker.
pub open spec fn heading_vector(p: Point2, a: Point2, b: Point2, d: Point2) -> (int, int) {
    (d.x - centroid(p, a, b).0, d.y - centroid(p, a, b).1)
}

/// Anchor `p` with nearest markers `a` and `b` forms the triangle, and `d`
/// gives the heading: both within the rejection distance, `d` strictly
/// farther than either, and `d` away from the triangle's centre.
pub open spec fn accepted(p: Point2, a: Point2, b: Point2, d: Point2) -> bool {
    let r2 = TRIANGLE_REJECTION_DISTANCE * TRIANGLE_REJECTION_DISTANCE;
    &&& dist2(p, a) <= r2
    &&& dist2(p, b) <= r2
    &&& dist2(p, d) > dist2(p, a)
    &&& dist2(p, d) > dist2(p, b)
    &&& heading_vector(p, a, b, d) != (0int, 0int)
}

/// The pose that an accepted triangle gives: the heading is the angle of
/// the centre-to-marker vector `(vx, vy)` read as `atan2(vx, vy)`, the
/// reference point lies the lever arm along that heading, and the image
/// axes are swapped and reversed.
pub open spec fn pose_from(p: Point2, a: Point2, b: Point2, d: Point2) -> Pose2d {
    let (cx, cy) = centroid(p, a, b);
    let (vx, vy) = heading_vector(p, a, b, d);
    let n = floor_sqrt(vx * vx + vy * vy);
    let rx = cx + TRIANGLE_TO_ROBOT * vy / n;
    let ry = cy + TRIANGLE_TO_ROBOT * vx / n;
    Pose2d { x: (MICRO - ry) as i64, y: (MICRO - rx) as i64, rotation: atan2_of(vx, vy) as i64 }
}

/// Point `c` anchors an accepted triangle.
pub open spec fn candidate_ok(pts: Seq<Point2>, c: int) -> bool {
    exists|j0: int, j1: int, j2: int, j3: int|
        nearest_four(pts, c, j0, j1, j2, j3) && accepted(pts[c], pts[j1], pts[j2], pts[j3])
}

/// The pose found with point `c` as anchor.
pub open spec fn candidate_pose(pts: Seq<Point2>, c: int, p: Pose2d) -> bool {
    exists|j0: int, j1: int, j2: int, j3: int|
        nearest_four(pts, c, j0, j1, j2, j3) && accepted(pts[c], pts[j1], pts[j2], pts[j3]) && p
            == pose_from(pts[c], pts[j1], pts[j2], pts[j3])
}

/// The pose that point `c` anchors.
pub open spec fn pose_at(pts: Seq<Point2>, c: int) -> Pose2d {
    choose|p: Pose2d| candidate_pose(pts, c, p)
}

/// The pose of the first anchor at position `c` or later.
pub open spec fn first_pose_from(pts: Seq<Point2>, c: int) -> Option<Pose2d>
    decreases pts.len() - c,
{
    if c < 0 || c >= pts.len() {
        None
    } else if candidate_ok(pts, c) {
        Some(pose_at(pts, c))
    } else {
        first_pose_from(pts, c + 1)
    }
}

/// A point in frame coordinates scaled so that the shorter side is one.
pub open spec fn normalized(p: Point2, shorter: int) -> Point2 {
    Point2 { x: (p.x * MICRO / shorter) as i64, y: (p.y * MICRO / shorter) as i64 }
}

pub open spec fn shorter_side(width: int, height: int) -> int {
    if width > height {
        height
    } else {
        width
    }
}

/// Largest normalised coordinate.
pub open spec fn norm_limit() -> int {
    FRAME_LIMIT * MICRO
}

pub open spec fn in_norm_range(pts: Seq<Point2>) -> bool {
    forall|i: int|
        0 <= i < pts.len() ==> -norm_limit() <= #[trigger] pts[i].x <= norm_limit() && -norm_limit()
            <= pts[i].y <= norm_limit()
}

proof fn lemma_floor_sqrt(n: int, r: int)
    requires
        0 <= r,
        r * r <= n < (r + 1) * (r + 1),
    ensures
        floor_sqrt(n) == r,
{
    assert(is_floor_sqrt(n, r));
    let s = floor_sqrt(n);
    assert(0 <= s && s * s <= n < (s + 1) * (s + 1));
    if s < r {
        assert((s + 1) * (s + 1) <= r * r) by (nonlinear_arith)
            requires 0 <= s < r;
    } else if r < s {
        assert((r + 1) * (r + 1) <= s * s) by (nonlinear_arith)
            requires 0 <= r < s;
    }
}

proof fn lemma_nearer_trans(pts: Seq<Point2>, c: int, x: int, y: int, z: int)
    requires
        nearer(pts, c, x, y),
        nearer(pts, c, y, z),
    ensures
        nearer(pts, c, x, z),
{
}

proof fn lemma_nearer_asym(pts: Seq<Point2>, c: int, x: int, y: int)
    requires
        nearer(pts, c, x, y),
    ensures
        !nearer(pts, c, y, x),
{
}

/// Each of the four nearest points comes before every later point.
proof fn lemma_nearest_four_minimal(pts: Seq<Point2>, c: int, a0: int, a1: int, a2: int, a3: int)
    requires
        nearest_four(pts, c, a0, a1, a2, a3),
    ensures
        forall|m: int| 0 <= m < pts.len() && m != a0 ==> #[trigger] nearer(pts, c, a0, m),
        forall|m: int| 0 <= m < pts.len() && m != a0 && m != a1 ==> #[trigger] nearer(pts, c, a1, m),
        forall|m: int|
            0 <= m < pts.len() && m != a0 && m != a1 && m != a2 ==> #[trigger] nearer(pts, c, a2, m),
{
    lemma_nearer_trans(pts, c, a0, a1, a2);
    lemma_nearer_trans(pts, c, a0, a2, a3);
    lemma_nearer_trans(pts, c, a1, a2, a3);
    assert forall|m: int| 0 <= m < pts.len() && m != a0 && m != a1 && m != a2 && m != a3 implies nearer(
        pts,
        c,
        a2,
        m,
    ) && nearer(pts, c, a1, m) && nearer(pts, c, a0, m) by {
        assert(nearer(pts, c, a3, m));
        lemma_nearer_trans(pts, c, a2, a3, m);
        lemma_nearer_trans(pts, c, a1, a2, m);
        lemma_nearer_trans(pts, c, a0, a1, m);
    }
}

/// The four nearest points are determined by the point they are measured
/// from.
proof fn lemma_nearest_four_unique(
    pts: Seq<Point2>,
    c: int,
    a0: int,
    a1: int,
    a2: int,
    a3: int,
    b0: int,
    b1: int,
    b2: int,
    b3: int,
)
    requires
        nearest_four(pts, c, a0, a1, a2, a3),
        nearest_four(pts, c, b0, b1, b2, b3),
    ensures
        a0 == b0 && a1 == b1 && a2 == b2 && a3 == b3,
{
    lemma_nearest_four_minimal(pts, c, a0, a1, a2, a3);
    lemma_nearest_four_minimal(pts, c, b0, b1, b2, b3);
    if a0 != b0 {
        assert(nearer(pts, c, a0, b0));
        assert(nearer(pts, c, b0, a0));
    }
    if a1 != b1 {
        assert(nearer(pts, c, a1, b1));
        assert(nearer(pts, c, b1, a1));
    }
    if a2 != b2 {
        assert(nearer(pts, c, a2, b2));
        assert(nearer(pts, c, b2, a2));
    }
    if a3 != b3 {
        assert(nearer(pts, c, a3, b3));
        assert(nearer(pts, c, b3, a3));
    }
}

/// `m` is one of the first `k` of `t0`, `t1`, `t2`.
pub open spec fn taken(t0: int, t1: int, t2: int, k: int, m: int) -> bool {
    (k > 0 && m == t0) || (k > 1 && m == t1) || (k > 2 && m == t2)
}

fn dist2_exec(a: Point2, b: Point2) -> (r: i128)
    requires
        -norm_limit() <= a.x <= norm_limit(),
        -norm_limit() <= a.y <= norm_limit(),
        -norm_limit() <= b.x <= norm_limit(),
        -norm_limit() <= b.y <= norm_limit(),
    ensures
        r == dist2(a, b),
{
    let dx: i128 = a.x as i128 - b.x as i128;
    let dy: i128 = a.y as i128 - b.y as i128;
    proof {
        let l = norm_limit();
        assert(dx * dx <= 4 * l * l) by (nonlinear_arith)
            requires -2 * l <= dx <= 2 * l;
        assert(dy * dy <= 4 * l * l) by (nonlinear_arith)
            requires -2 * l <= dy <= 2 * l;
        assert(0 <= dx * dx && 0 <= dy * dy) by (nonlinear_arith);
    }
    dx * dx + dy * dy
}

/// The point nearest to point `c` among those not yet taken.
fn nearest_except(pts: &Vec<Point2>, c: usize, t0: usize, t1: usize, t2: usize, k: usize) -> (r:
    Option<usize>)
    requires
        c < pts@.len(),
        in_norm_range(pts@),
    ensures
        match r {
            Some(b) => b < pts@.len() && !taken(t0 as int, t1 as int, t2 as int, k as int, b as int)
                && forall|m: int|
                0 <= m < pts@.len() && !taken(t0 as int, t1 as int, t2 as int, k as int, m) && m
                    != b ==> #[trigger] nearer(pts@, c as int, b as int, m),
            None => forall|m: int|
                0 <= m < pts@.len() ==> #[trigger] taken(
                    t0 as int,
                    t1 as int,
                    t2 as int,
                    k as int,
                    m,
                ),
        },
{
    let origin = pts[c];
    let mut best: Option<usize> = None;
    let mut best_d: i128 = 0;
    let mut m: usize = 0;
    while m < pts.len()
        invariant
            m <= pts@.len(),
            c < pts@.len(),
            origin == pts@[c as int],
            in_norm_range(pts@),
            match best {
                Some(b) => b < m && !taken(t0 as int, t1 as int, t2 as int, k as int, b as int)
                    && best_d == dist2(origin, pts@[b as int]) && forall|q: int|
                    0 <= q < m && !taken(t0 as int, t1 as int, t2 as int, k as int, q) && q != b
                        ==> #[trigger] nearer(pts@, c as int, b as int, q),
                None => forall|q: int|
                    0 <= q < m ==> #[trigger] taken(t0 as int, t1 as int, t2 as int, k as int, q),
            },
        decreases pts@.len() - m,
    {
        let is_taken = (k > 0 && m == t0) || (k > 1 && m == t1) || (k > 2 && m == t2);
        if !is_taken {
            let d = dist2_exec(origin, pts[m]);
            match best {
                Some(b) => {
                    if d < best_d {
                        assert forall|q: int|
                            0 <= q < m + 1 && !taken(t0 as int, t1 as int, t2 as int, k as int, q)
                                && q != m implies #[trigger] nearer(pts@, c as int, m as int, q) by {
                            if q != b {
                                assert(nearer(pts@, c as int, b as int, q));
                            }
                        }
                        best = Some(m);
                        best_d = d;
                    }
                },
                None => {
                    best = Some(m);
                    best_d = d;
                },
            }
        }
        m = m + 1;
    }
    best
}

/// The four points nearest to point `c`, in order.
fn nearest_four_exec(pts: &Vec<Point2>, c: usize) -> (r: (usize, usize, usize, usize))
    requires
        c < pts@.len(),
        pts@.len() >= 4,
        in_norm_range(pts@),
    ensures
        nearest_four(pts@, c as int, r.0 as int, r.1 as int, r.2 as int, r.3 as int),
{
    let j0 = match nearest_except(pts, c, 0, 0, 0, 0) {
        Some(j) => j,
        None => {
            assert(taken(0, 0, 0, 0, 0));
            0
        },
    };
    let j1 = match nearest_except(pts, c, j0, 0, 0, 1) {
        Some(j) => j,
        None => {
            assert(taken(j0 as int, 0, 0, 1, 0) && taken(j0 as int, 0, 0, 1, 1));
            0
        },
    };
    let j2 = match nearest_except(pts, c, j0, j1, 0, 2) {
        Some(j) => j,
        None => {
            assert(taken(j0 as int, j1 as int, 0, 2, 0) && taken(j0 as int, j1 as int, 0, 2, 1)
                && taken(j0 as int, j1 as int, 0, 2, 2));
            0
        },
    };
    let j3 = match nearest_except(pts, c, j0, j1, j2, 3) {
        Some(j) => j,
        None => {
            assert(taken(j0 as int, j1 as int, j2 as int, 3, 0) && taken(
                j0 as int,
                j1 as int,
                j2 as int,
                3,
                1,
            ) && taken(j0 as int, j1 as int, j2 as int, 3, 2) && taken(
                j0 as int,
                j1 as int,
                j2 as int,
                3,
                3,
            ));
            0
        },
    };
    assert(taken(j0 as int, j1 as int, j2 as int, 3, j0 as int));
    assert(nearer(pts@, c as int, j0 as int, j1 as int));
    assert(nearer(pts@, c as int, j1 as int, j2 as int));
    assert(nearer(pts@, c as int, j2 as int, j3 as int));
    assert forall|m: int|
        0 <= m < pts@.len() && m != j0 && m != j1 && m != j2 && m != j3 implies #[trigger] nearer(
        pts@,
        c as int,
        j3 as int,
        m,
    ) by {
        assert(!taken(j0 as int, j1 as int, j2 as int, 3, m));
    }
    (j0, j1, j2, j3)
}

/// The pose given by anchor `p`, triangle markers `a` and `b` and heading
/// marker `d`, or `None` when they do not form the pattern.
fn triangle_pose(p: Point2, a: Point2, b: Point2, d: Point2) -> (r: Option<Pose2d>)
    requires
        -norm_limit() <= p.x <= norm_limit() && -norm_limit() <= p.y <= norm_limit(),
        -norm_limit() <= a.x <= norm_limit() && -norm_limit() <= a.y <= norm_limit(),
        -norm_limit() <= b.x <= norm_limit() && -norm_limit() <= b.y <= norm_limit(),
        -norm_limit() <= d.x <= norm_limit() && -norm_limit() <= d.y <= norm_limit(),
    ensures
        r == if accepted(p, a, b, d) {
            Some(pose_from(p, a, b, d))
        } else {
            None::<Pose2d>
        },
        r matches Some(q) ==> q.wf(),
{
    let limit: i128 = (TRIANGLE_REJECTION_DISTANCE as i128) * (TRIANGLE_REJECTION_DISTANCE as i128);
    let da = dist2_exec(p, a);
    let db = dist2_exec(p, b);
    let dd = dist2_exec(p, d);
    if da > limit || db > limit || dd <= da || dd <= db {
        return None;
    }
    proof {
        let l = norm_limit();
        vstd::arithmetic::div_mod::lemma_div_is_ordered(p.x + a.x + b.x, 3 * l, 3);
        vstd::arithmetic::div_mod::lemma_div_is_ordered(-3 * l, p.x + a.x + b.x, 3);
        vstd::arithmetic::div_mod::lemma_div_is_ordered(p.y + a.y + b.y, 3 * l, 3);
        vstd::arithmetic::div_mod::lemma_div_is_ordered(-3 * l, p.y + a.y + b.y, 3);
    }
    let cx: i64 = div_floor(p.x as i128 + a.x as i128 + b.x as i128, 3) as i64;
    let cy: i64 = div_floor(p.y as i128 + a.y as i128 + b.y as i128, 3) as i64;
    let vx: i64 = d.x - cx;
    let vy: i64 = d.y - cy;
    if vx == 0 && vy == 0 {
        return None;
    }
    proof {
        let l = norm_limit();
        assert(-l <= cx <= l && -l <= cy <= l);
        assert(0 <= vx * vx <= 4 * l * l) by (nonlinear_arith)
            requires -2 * l <= vx <= 2 * l;
        assert(0 <= vy * vy <= 4 * l * l) by (nonlinear_arith)
            requires -2 * l <= vy <= 2 * l;
    }
    let vx2: i128 = vx as i128 * vx as i128;
    let vy2: i128 = vy as i128 * vy as i128;
    proof {
        assert(vx2 + vy2 >= 1) by (nonlinear_arith)
            requires vx != 0 || vy != 0, vx2 == vx * vx, vy2 == vy * vy;
    }
    let n2: u128 = (vx2 + vy2) as u128;
    let n: u128 = isqrt(n2);
    proof {
        lemma_floor_sqrt(n2 as int, n as int);
        assert(n >= 1) by (nonlinear_arith)
            requires n * n <= n2 < (n + 1) * (n + 1), n2 >= 1, n >= 0;
        assert(n <= n2) by (nonlinear_arith)
            requires n * n <= n2, n >= 1;
        assert(-(n as int) <= vx <= n) by (nonlinear_arith)
            requires vx * vx <= n2 < (n + 1) * (n + 1), n >= 0, n2 == vx * vx + vy * vy, vy * vy >= 0;
        assert(-(n as int) <= vy <= n) by (nonlinear_arith)
            requires vy * vy <= n2 < (n + 1) * (n + 1), n >= 0, n2 == vx * vx + vy * vy, vx * vx >= 0;
    }
    let n: i128 = n as i128;
    let arm: i128 = TRIANGLE_TO_ROBOT as i128;
    proof {
        assert(-(arm * n) <= arm * vx <= arm * n) by (nonlinear_arith)
            requires -n <= vx <= n, arm > 0;
        assert(-(arm * n) <= arm * vy <= arm * n) by (nonlinear_arith)
            requires -n <= vy <= n, arm > 0;
        vstd::arithmetic::div_mod::lemma_div_multiples_vanish(arm as int, n as int);
        vstd::arithmetic::div_mod::lemma_div_multiples_vanish(-arm, n as int);
        assert(n * -arm == -(arm * n)) by (nonlinear_arith);
        assert(n * arm == arm * n) by (nonlinear_arith);
        vstd::arithmetic::div_mod::lemma_div_is_ordered(arm * vx, arm * n, n as int);
        vstd::arithmetic::div_mod::lemma_div_is_ordered(-(arm * n), arm * vx, n as int);
        vstd::arithmetic::div_mod::lemma_div_is_ordered(arm * vy, arm * n, n as int);
        vstd::arithmetic::div_mod::lemma_div_is_ordered(-(arm * n), arm * vy, n as int);
    }
    let rx: i128 = cx as i128 + div_floor(arm * vy as i128, n);
    let ry: i128 = cy as i128 + div_floor(arm * vx as i128, n);
    let rotation = atan2(vx, vy);
    Some(Pose2d { x: (MICRO as i128 - ry) as i64, y: (MICRO as i128 - rx) as i64, rotation })
}

/// A frame coordinate in micro-units of the frame's shorter side, rounded
/// down.
fn scale_coordinate(v: i64, shorter: i64) -> (r: i64)
    requires
        -FRAME_LIMIT <= v <= FRAME_LIMIT,
        1 <= shorter <= FRAME_LIMIT,
    ensures
        r == v * MICRO / (shorter as int),
        -norm_limit() <= r <= norm_limit(),
{
    proof {
        let l = norm_limit();
        let s = shorter as int;
        assert(-l <= v * MICRO <= l) by (nonlinear_arith)
            requires -FRAME_LIMIT <= v <= FRAME_LIMIT, l == FRAME_LIMIT * MICRO;
        assert(-l * s <= -l && l <= l * s) by (nonlinear_arith)
            requires s >= 1, l >= 0;
        vstd::arithmetic::div_mod::lemma_div_is_ordered(v * MICRO, l * s, s);
        vstd::arithmetic::div_mod::lemma_div_is_ordered(-l * s, v * MICRO, s);
        assert(l * s == s * l && -l * s == s * -l) by (nonlinear_arith);
        vstd::arithmetic::div_mod::lemma_div_multiples_vanish(l, s);
        vstd::arithmetic::div_mod::lemma_div_multiples_vanish(-l, s);
    }
    div_floor(v as i128 * MICRO as i128, shorter as i128) as i64
}

impl IrTrackers {
    /// The declared size is positive, and sizes and coordinates are within
    /// the limit that keeps the arithmetic in range. Points may lie outside
    /// the image.
    pub open spec fn frame_ok(&self) -> bool {
        &&& 0 < self.width <= FRAME_LIMIT
        &&& 0 < self.height <= FRAME_LIMIT
        &&& forall|i: int|
            0 <= i < self.points@.len() ==> -FRAME_LIMIT <= #[trigger] self.points@[i].x
                <= FRAME_LIMIT && -FRAME_LIMIT <= self.points@[i].y <= FRAME_LIMIT
    }

    /// The frame's points scaled so that the shorter side is one.
    pub open spec fn screen_points(&self) -> Seq<Point2> {
        self.points@.map_values(
            |p: Point2| normalized(p, shorter_side(self.width as int, self.height as int)),
        )
    }

    pub fn new(points: Vec<Point2>, height: i64, width: i64) -> (r: IrTrackers)
        ensures
            r.points@ == points@,
            r.point_count == points@.len(),
            r.height == height,
            r.width == width,
            r.frame_time == 0,
    {
        let point_count = points.len();
        IrTrackers {
            frame_time: 0,
            point_count,
            height,
            width,
            channels: 0,
            using_otsu_thresholding: false,
            binarization_threshold: 0,
            points,
        }
    }

    fn check_frame(&self) -> (r: bool)
        ensures
            r == self.frame_ok(),
    {
        if self.width <= 0 || self.width > FRAME_LIMIT || self.height <= 0 || self.height
            > FRAME_LIMIT {
            return false;
        }
        let mut i: usize = 0;
        while i < self.points.len()
            invariant
                i <= self.points@.len(),
                forall|j: int|
                    0 <= j < i ==> -FRAME_LIMIT <= #[trigger] self.points@[j].x <= FRAME_LIMIT
                        && -FRAME_LIMIT <= self.points@[j].y <= FRAME_LIMIT,
            decreases self.points@.len() - i,
        {
            let p = self.points[i];
            if p.x < -FRAME_LIMIT || p.x > FRAME_LIMIT || p.y < -FRAME_LIMIT || p.y > FRAME_LIMIT {
                return false;
            }
            i = i + 1;
        }
        true
    }

    /// The pose this frame gives: none with fewer than four points or an
    /// frame beyond the size limits, else that of the first anchor in frame order.
    pub open spec fn tracker_pose(&self) -> Option<Pose2d> {
        if self.point_count < 4 || self.points@.len() < 4 || !self.frame_ok() {
            None
        } else {
            first_pose_from(self.screen_points(), 0)
        }
    }

    /// The points scaled so that the frame's shorter side is one, which
    /// keeps the aspect ratio.
    pub fn points_in_screen_space(&self) -> (r: Vec<Point2>)
        requires
            self.frame_ok(),
        ensures
            r@ == self.screen_points(),
            in_norm_range(r@),
    {
        let shorter: i64 = if self.width > self.height { self.height } else { self.width };
        let mut out: Vec<Point2> = Vec::with_capacity(self.points.len());
        let mut i: usize = 0;
        while i < self.points.len()
            invariant
                i <= self.points@.len(),
                self.frame_ok(),
                shorter == shorter_side(self.width as int, self.height as int),
                out@.len() == i,
                forall|j: int|
                    0 <= j < i ==> #[trigger] out@[j] == normalized(self.points@[j], shorter as int),
                in_norm_range(out@),
            decreases self.points@.len() - i,
        {
            let p = self.points[i];
            assert(-FRAME_LIMIT <= p.x <= FRAME_LIMIT && -FRAME_LIMIT <= p.y <= FRAME_LIMIT);
            let q = Point2 { x: scale_coordinate(p.x, shorter), y: scale_coordinate(p.y, shorter) };
            out.push(q);
            i = i + 1;
        }
        assert(out@ =~= self.screen_points());
        out
    }

    /// The robot's pose from this frame: the first point, in frame order,
    /// that anchors a tight triangle with its two nearest neighbours and has
    /// its third neighbour as heading marker. `None` with fewer than four
    /// points, when the frame's size or coordinates exceed the limits, or when
    /// no point anchors the pattern.
    pub fn find_tracker_pose(&self) -> (r: Option<Pose2d>)
        ensures
            self.point_count < 4 ==> r is None,
            self.points@.len() < 4 || !self.frame_ok() ==> r is None,
            r == self.tracker_pose(),
            r matches Some(p) ==> p.wf(),
    {
        if self.point_count < 4 || self.points.len() < 4 || !self.check_frame() {
            return None;
        }
        let pts = self.points_in_screen_space();
        let mut c: usize = 0;
        while c < pts.len()
            invariant
                c <= pts@.len(),
                self.point_count >= 4,
                self.frame_ok(),
                pts@.len() == self.points@.len(),
                pts@.len() >= 4,
                pts@ == self.screen_points(),
                in_norm_range(pts@),
                first_pose_from(pts@, 0) == first_pose_from(pts@, c as int),
            decreases pts@.len() - c,
        {
            let (j0, j1, j2, j3) = nearest_four_exec(&pts, c);
            proof {
                assert(-norm_limit() <= pts@[c as int].x);
                assert(-norm_limit() <= pts@[j1 as int].x);
                assert(-norm_limit() <= pts@[j2 as int].x);
                assert(-norm_limit() <= pts@[j3 as int].x);
            }
            match triangle_pose(pts[c], pts[j1], pts[j2], pts[j3]) {
                Some(p) => {
                    assert(candidate_pose(pts@, c as int, p));
                    assert(candidate_ok(pts@, c as int));
                    let ghost q = pose_at(pts@, c as int);
                    assert(candidate_pose(pts@, c as int, q));
                    assert(q == p) by {
                        let (b0, b1, b2, b3) = choose|b0: int, b1: int, b2: int, b3: int|
                            nearest_four(pts@, c as int, b0, b1, b2, b3) && accepted(
                                pts@[c as int],
                                pts@[b1],
                                pts@[b2],
                                pts@[b3],
                            ) && q == pose_from(pts@[c as int], pts@[b1], pts@[b2], pts@[b3]);
                        lemma_nearest_four_unique(
                            pts@,
                            c as int,
                            j0 as int,
                            j1 as int,
                            j2 as int,
                            j3 as int,
                            b0,
                            b1,
                            b2,
                            b3,
                        );
                    }
                    return Some(p);
                },
                None => {
                    assert forall|b0: int, b1: int, b2: int, b3: int|
                        nearest_four(pts@, c as int, b0, b1, b2, b3) implies !accepted(
                        pts@[c as int],
                        pts@[b1],
                        pts@[b2],
                        pts@[b3],
                    ) by {
                        lemma_nearest_four_unique(
                            pts@,
                            c as int,
                            j0 as int,
                            j1 as int,
                            j2 as int,
                            j3 as int,
                            b0,
                            b1,
                            b2,
                            b3,
                        );
                    }
                    assert(!candidate_ok(pts@, c as int));
                },
            }
            c = c + 1;
        }
        None
    }
}

} // verus!
