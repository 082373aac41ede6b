//! Ray/AABB picking: the slab-method ray–box intersection, carried out in
//! exact rational arithmetic over integer milli-unit coordinates. A hit time
//! is a rational with positive denominator, so every comparison is an exact
//! cross-multiplication and no result depends on rounding.

use vstd::prelude::*;

verus! {

/// Coordinates are kept within this bound (in milli-units, about a million
/// world units) so that every product of the intersection math fits i128.
pub const COORD_LIMIT: i64 = 0x10000000000;

/// Bound of the numerators the per-axis slab times can have.
pub const RAT_NUM_LIMIT: i128 = 0x20000000000;

/// Bound of the numerators an evaluated point coordinate can have.
pub const POINT_NUM_LIMIT: i128 = 0x400000000000000000000;

/// How far above the box's bottom plane (in milli-units) the far hit may sit
/// and still count as a floor hit.
pub const FLOOR_EPSILON: i64 = 1;

/// An integer point or direction in milli-unit world space.
#[derive(Clone, Copy, Debug, PartialEq, Eq, Structural)]
pub struct Vec3i {
    pub x: i64,
    pub y: i64,
    pub z: i64,
}

impl Vec3i {
    pub open spec fn bounded(self) -> bool {
        &&& -COORD_LIMIT <= self.x <= COORD_LIMIT
        &&& -COORD_LIMIT <= self.y <= COORD_LIMIT
        &&& -COORD_LIMIT <= self.z <= COORD_LIMIT
    }
}

/// A picking ray: origin and direction. The direction need not be
/// normalized; a direction of all zeroes constrains no axis and never picks.
#[derive(Clone, Copy, Debug, PartialEq, Eq, Structural)]
pub struct Ray {
    pub origin: Vec3i,
    pub dir: Vec3i,
}

impl Ray {
    pub open spec fn wf(self) -> bool {
        &&& self.origin.bounded()
        &&& self.dir.bounded()
    }
}

/// An axis-aligned bounding box.
#[derive(Clone, Copy, Debug, PartialEq, Eq, Structural)]
pub struct Aabb {
    pub min: Vec3i,
    pub max: Vec3i,
}

impl Aabb {
    pub open spec fn wf(self) -> bool {
        &&& self.min.bounded()
        &&& self.max.bounded()
        &&& self.min.x <= self.max.x
        &&& self.min.y <= self.max.y
        &&& self.min.z <= self.max.z
    }
}

/// A rational number with positive denominator.
#[derive(Clone, Copy, Debug, PartialEq, Eq, Structural)]
pub struct Rat {
    pub num: i128,
    pub den: i128,
}

impl Rat {
    /// The shape the slab times have: the numerator spans at most twice the
    /// coordinate range, the denominator is a direction component's
    /// magnitude.
    pub open spec fn bounded(self) -> bool {
        &&& -RAT_NUM_LIMIT <= self.num <= RAT_NUM_LIMIT
        &&& 1 <= self.den <= COORD_LIMIT as i128
    }
}

/// a <= b over rationals with positive denominators.
pub open spec fn rat_le(a: Rat, b: Rat) -> bool {
    a.num * b.den <= b.num * a.den
}

pub open spec fn rat_max(a: Rat, b: Rat) -> Rat {
    if rat_le(a, b) {
        b
    } else {
        a
    }
}

pub open spec fn rat_min(a: Rat, b: Rat) -> Rat {
    if rat_le(a, b) {
        a
    } else {
        b
    }
}

/// The time the ray's line enters the slab of one axis (direction nonzero).
pub open spec fn axis_lo(o: i64, d: i64, lo: i64, hi: i64) -> Rat {
    if d > 0 {
        Rat { num: (lo - o) as i128, den: d as i128 }
    } else {
        Rat { num: (o - hi) as i128, den: (0 - d) as i128 }
    }
}

/// The time the ray's line leaves the slab of one axis (direction nonzero).
pub open spec fn axis_hi(o: i64, d: i64, lo: i64, hi: i64) -> Rat {
    if d > 0 {
        Rat { num: (hi - o) as i128, den: d as i128 }
    } else {
        Rat { num: (o - lo) as i128, den: (0 - d) as i128 }
    }
}

/// Folds one axis into the greatest entry time seen so far; an axis with
/// zero direction constrains nothing.
pub open spec fn fold_max(acc: Option<Rat>, active: bool, r: Rat) -> Option<Rat> {
    if active {
        match acc {
            None => Some(r),
            Some(a) => Some(rat_max(a, r)),
        }
    } else {
        acc
    }
}

/// Folds one axis into the least exit time seen so far.
pub open spec fn fold_min(acc: Option<Rat>, active: bool, r: Rat) -> Option<Rat> {
    if active {
        match acc {
            None => Some(r),
            Some(a) => Some(rat_min(a, r)),
        }
    } else {
        acc
    }
}

/// The greatest slab entry time over the constrained axes.
pub open spec fn slab_near(ray: Ray, aabb: Aabb) -> Option<Rat> {
    let ax = fold_max(
        None,
        ray.dir.x != 0,
        axis_lo(ray.origin.x, ray.dir.x, aabb.min.x, aabb.max.x),
    );
    let ay = fold_max(ax, ray.dir.y != 0, axis_lo(ray.origin.y, ray.dir.y, aabb.min.y, aabb.max.y));
    fold_max(ay, ray.dir.z != 0, axis_lo(ray.origin.z, ray.dir.z, aabb.min.z, aabb.max.z))
}

/// The least slab exit time over the constrained axes.
pub open spec fn slab_far(ray: Ray, aabb: Aabb) -> Option<Rat> {
    let ax = fold_min(
        None,
        ray.dir.x != 0,
        axis_hi(ray.origin.x, ray.dir.x, aabb.min.x, aabb.max.x),
    );
    let ay = fold_min(ax, ray.dir.y != 0, axis_hi(ray.origin.y, ray.dir.y, aabb.min.y, aabb.max.y));
    fold_min(ay, ray.dir.z != 0, axis_hi(ray.origin.z, ray.dir.z, aabb.min.z, aabb.max.z))
}

/// Some axis is parallel to its slab with the origin outside it: a sure miss.
pub open spec fn flat_miss(ray: Ray, aabb: Aabb) -> bool {
    ||| (ray.dir.x == 0 && (ray.origin.x < aabb.min.x || ray.origin.x > aabb.max.x))
    ||| (ray.dir.y == 0 && (ray.origin.y < aabb.min.y || ray.origin.y > aabb.max.y))
    ||| (ray.dir.z == 0 && (ray.origin.z < aabb.min.z || ray.origin.z > aabb.max.z))
}

/// The near and far times of a ray–box hit.
#[derive(Clone, Copy, Debug, PartialEq, Eq, Structural)]
pub struct RayHit {
    pub t_near: Rat,
    pub t_far: Rat,
}

/// The slab-method intersection: entry and exit times of the ray through the
/// box, or nothing when they are disjoint. A hit needs entry at or before
/// exit, and an exit not behind the ray's origin. A direction with no
/// nonzero component constrains no axis and never hits.
pub open spec fn slab_hit(ray: Ray, aabb: Aabb) -> Option<RayHit> {
    if flat_miss(ray, aabb) {
        None
    } else {
        match (slab_near(ray, aabb), slab_far(ray, aabb)) {
            (Some(n), Some(f)) => if rat_le(n, f) && f.num >= 0 {
                Some(RayHit { t_near: n, t_far: f })
            } else {
                None
            },
            _ => None,
        }
    }
}

/// The numerator of the coordinate o + t·d over the denominator t.den.
pub open spec fn point_num(o: i64, d: i64, t: Rat) -> int {
    o * t.den + t.num * d
}

/// A signed product of bounded factors is bounded.
pub(crate) proof fn lemma_signed_product_bound(a: int, b: int, ab: int, bb: int) by (nonlinear_arith)
    requires
        -ab <= a <= ab,
        -bb <= b <= bb,
        0 <= ab,
        0 <= bb,
    ensures
        -(ab * bb) <= a * b <= ab * bb,
{
}

/// Rational order is total and transitive over positive denominators.
proof fn lemma_rat_le_trans(a: Rat, b: Rat, c: Rat)
    requires
        1 <= a.den,
        1 <= b.den,
        1 <= c.den,
        rat_le(a, b),
        rat_le(b, c),
    ensures
        rat_le(a, c),
{
    assert(a.num * c.den <= c.num * a.den) by (nonlinear_arith)
        requires
            a.num * b.den <= b.num * a.den,
            b.num * c.den <= c.num * b.den,
            1 <= a.den,
            1 <= b.den,
            1 <= c.den,
    ;
}

/// The smaller of two rationals sits at or below both.
proof fn lemma_rat_min_le(a: Rat, b: Rat)
    ensures
        rat_le(rat_min(a, b), a),
        rat_le(rat_min(a, b), b),
{
}

/// The larger of two rationals sits at or above both.
proof fn lemma_rat_max_ge(a: Rat, b: Rat)
    ensures
        rat_le(a, rat_max(a, b)),
        rat_le(b, rat_max(a, b)),
{
}

/// A fold of three exit times sits at or below every active one, and is one
/// of them.
proof fn lemma_fold3_min(b0: bool, r0: Rat, b1: bool, r1: Rat, b2: bool, r2: Rat, f: Rat)
    requires
        fold_min(fold_min(fold_min(None, b0, r0), b1, r1), b2, r2) == Some(f),
        b0 ==> 1 <= r0.den,
        b1 ==> 1 <= r1.den,
        b2 ==> 1 <= r2.den,
    ensures
        b0 ==> rat_le(f, r0),
        b1 ==> rat_le(f, r1),
        b2 ==> rat_le(f, r2),
        (b0 && f == r0) || (b1 && f == r1) || (b2 && f == r2),
{
    lemma_rat_min_le(r0, r1);
    lemma_rat_min_le(r0, r2);
    lemma_rat_min_le(r1, r2);
    lemma_rat_min_le(rat_min(r0, r1), r2);
    if b0 && b1 && b2 {
        lemma_rat_le_trans(f, rat_min(r0, r1), r0);
        lemma_rat_le_trans(f, rat_min(r0, r1), r1);
    }
}

/// A fold of three entry times sits at or above every active one, and is one
/// of them.
proof fn lemma_fold3_max(b0: bool, r0: Rat, b1: bool, r1: Rat, b2: bool, r2: Rat, n: Rat)
    requires
        fold_max(fold_max(fold_max(None, b0, r0), b1, r1), b2, r2) == Some(n),
        b0 ==> 1 <= r0.den,
        b1 ==> 1 <= r1.den,
        b2 ==> 1 <= r2.den,
    ensures
        b0 ==> rat_le(r0, n),
        b1 ==> rat_le(r1, n),
        b2 ==> rat_le(r2, n),
        (b0 && n == r0) || (b1 && n == r1) || (b2 && n == r2),
{
    lemma_rat_max_ge(r0, r1);
    lemma_rat_max_ge(r0, r2);
    lemma_rat_max_ge(r1, r2);
    lemma_rat_max_ge(rat_max(r0, r1), r2);
    if b0 && b1 && b2 {
        lemma_rat_le_trans(r0, rat_max(r0, r1), n);
        lemma_rat_le_trans(r1, rat_max(r0, r1), n);
    }
}

/// Compares two bounded rationals by cross-multiplication.
fn rat_le_exec(a: &Rat, b: &Rat) -> (r: bool)
    requires
        a.bounded(),
        b.bounded(),
    ensures
        r == rat_le(*a, *b),
{
    proof {
        lemma_signed_product_bound(a.num as int, b.den as int, RAT_NUM_LIMIT as int, COORD_LIMIT as int);
        lemma_signed_product_bound(b.num as int, a.den as int, RAT_NUM_LIMIT as int, COORD_LIMIT as int);
    }
    a.num * b.den <= b.num * a.den
}

/// The slab range of one axis whose direction component is nonzero, as entry
/// and exit rationals over the positive denominator |d|.
fn axis_range(o: i64, d: i64, lo: i64, hi: i64) -> (r: (Rat, Rat))
    requires
        d != 0,
        -COORD_LIMIT <= o <= COORD_LIMIT,
        -COORD_LIMIT <= d <= COORD_LIMIT,
        -COORD_LIMIT <= lo <= COORD_LIMIT,
        -COORD_LIMIT <= hi <= COORD_LIMIT,
    ensures
        r.0 == axis_lo(o, d, lo, hi),
        r.1 == axis_hi(o, d, lo, hi),
        r.0.bounded(),
        r.1.bounded(),
        r.0.den == r.1.den,
{
    if d > 0 {
        (
            Rat { num: (lo as i128) - (o as i128), den: d as i128 },
            Rat { num: (hi as i128) - (o as i128), den: d as i128 },
        )
    } else {
        (
            Rat { num: (o as i128) - (hi as i128), den: 0 - (d as i128) },
            Rat { num: (o as i128) - (lo as i128), den: 0 - (d as i128) },
        )
    }
}

/// Slab-method ray–box intersection, as the specification `slab_hit` states
/// it.
pub fn hits_aabb(ray: &Ray, aabb: &Aabb) -> (r: Option<RayHit>)
    requires
        ray.wf(),
        aabb.wf(),
    ensures
        r == slab_hit(*ray, *aabb),
        r matches Some(h) ==> h.t_near.bounded() && h.t_far.bounded(),
{
    if ray.dir.x == 0 && (ray.origin.x < aabb.min.x || ray.origin.x > aabb.max.x) {
        return None;
    }
    if ray.dir.y == 0 && (ray.origin.y < aabb.min.y || ray.origin.y > aabb.max.y) {
        return None;
    }
    if ray.dir.z == 0 && (ray.origin.z < aabb.min.z || ray.origin.z > aabb.max.z) {
        return None;
    }
    let mut near: Option<Rat> = None;
    let mut far: Option<Rat> = None;
    if ray.dir.x != 0 {
        let (lo, hi) = axis_range(ray.origin.x, ray.dir.x, aabb.min.x, aabb.max.x);
        near = Some(lo);
        far = Some(hi);
    }
    if ray.dir.y != 0 {
        let (lo, hi) = axis_range(ray.origin.y, ray.dir.y, aabb.min.y, aabb.max.y);
        near = match near {
            None => Some(lo),
            Some(a) => Some(
                if rat_le_exec(&a, &lo) {
                    lo
                } else {
                    a
                },
            ),
        };
        far = match far {
            None => Some(hi),
            Some(a) => Some(
                if rat_le_exec(&a, &hi) {
                    a
                } else {
                    hi
                },
            ),
        };
    }
    if ray.dir.z != 0 {
        let (lo, hi) = axis_range(ray.origin.z, ray.dir.z, aabb.min.z, aabb.max.z);
        near = match near {
            None => Some(lo),
            Some(a) => Some(
                if rat_le_exec(&a, &lo) {
                    lo
                } else {
                    a
                },
            ),
        };
        far = match far {
            None => Some(hi),
            Some(a) => Some(
                if rat_le_exec(&a, &hi) {
                    a
                } else {
                    hi
                },
            ),
        };
    }
    match (near, far) {
        (Some(n), Some(f)) => {
            if rat_le_exec(&n, &f) && f.num >= 0 {
                Some(RayHit { t_near: n, t_far: f })
            } else {
                None
            }
        },
        _ => None,
    }
}

/// The exact point a hit time names on the ray: three coordinate numerators
/// over one common denominator.
#[derive(Clone, Copy, Debug, PartialEq, Eq, Structural)]
pub struct HitPoint {
    pub num_x: i128,
    pub num_y: i128,
    pub num_z: i128,
    pub den: i128,
}

impl HitPoint {
    pub open spec fn bounded(self) -> bool {
        &&& -POINT_NUM_LIMIT <= self.num_x <= POINT_NUM_LIMIT
        &&& -POINT_NUM_LIMIT <= self.num_y <= POINT_NUM_LIMIT
        &&& -POINT_NUM_LIMIT <= self.num_z <= POINT_NUM_LIMIT
        &&& 1 <= self.den <= COORD_LIMIT as i128
    }
}

/// The cursor pick: the far slab hit, accepted only when it lies within
/// FLOOR_EPSILON of the box's bottom plane. Side and top hits, and hits of a
/// box behind the ray, pick nothing.
pub open spec fn spec_pick(ray: Ray, aabb: Aabb) -> Option<HitPoint> {
    match slab_hit(ray, aabb) {
        None => None,
        Some(h) => {
            let py = point_num(ray.origin.y, ray.dir.y, h.t_far);
            if py - aabb.min.y * h.t_far.den > FLOOR_EPSILON * h.t_far.den {
                None
            } else {
                Some(
                    HitPoint {
                        num_x: point_num(ray.origin.x, ray.dir.x, h.t_far) as i128,
                        num_y: py as i128,
                        num_z: point_num(ray.origin.z, ray.dir.z, h.t_far) as i128,
                        den: h.t_far.den,
                    },
                )
            }
        },
    }
}

/// Law: a successful pick lies inside the box on x and z, and on y between
/// the bottom plane and the floor epsilon above it. In exact arithmetic the
/// picked point never overshoots the box; the cursor clamp guards only the
/// rounding of the stored coordinates.
pub proof fn lemma_pick_in_box(ray: Ray, aabb: Aabb, p: HitPoint)
    requires
        ray.wf(),
        aabb.wf(),
        spec_pick(ray, aabb) == Some(p),
    ensures
        aabb.min.x * p.den <= p.num_x <= aabb.max.x * p.den,
        aabb.min.z * p.den <= p.num_z <= aabb.max.z * p.den,
        aabb.min.y * p.den <= p.num_y <= (aabb.min.y + FLOOR_EPSILON) * p.den,
{
    match slab_hit(ray, aabb) {
        Some(h) => {
            lemma_far_point_in_box(ray, aabb, h);
            let t = h.t_far;
            lemma_signed_product_bound(
                aabb.min.x as int,
                t.den as int,
                COORD_LIMIT as int,
                COORD_LIMIT as int,
            );
            lemma_signed_product_bound(
                aabb.max.x as int,
                t.den as int,
                COORD_LIMIT as int,
                COORD_LIMIT as int,
            );
            lemma_signed_product_bound(
                aabb.min.y as int,
                t.den as int,
                COORD_LIMIT as int,
                COORD_LIMIT as int,
            );
            lemma_signed_product_bound(
                aabb.max.y as int,
                t.den as int,
                COORD_LIMIT as int,
                COORD_LIMIT as int,
            );
            lemma_signed_product_bound(
                aabb.min.z as int,
                t.den as int,
                COORD_LIMIT as int,
                COORD_LIMIT as int,
            );
            lemma_signed_product_bound(
                aabb.max.z as int,
                t.den as int,
                COORD_LIMIT as int,
                COORD_LIMIT as int,
            );
            assert((aabb.min.y + FLOOR_EPSILON) * t.den == aabb.min.y * t.den + FLOOR_EPSILON
                * t.den) by (nonlinear_arith);
        },
        None => {},
    }
}

/// Evaluates o + t·d as a numerator over the denominator t.den.
fn point_num_exec(o: i64, d: i64, t: &Rat) -> (r: i128)
    requires
        t.bounded(),
        -COORD_LIMIT <= o <= COORD_LIMIT,
        -COORD_LIMIT <= d <= COORD_LIMIT,
    ensures
        r == point_num(o, d, *t),
        -POINT_NUM_LIMIT <= r <= POINT_NUM_LIMIT,
{
    proof {
        lemma_signed_product_bound(o as int, t.den as int, COORD_LIMIT as int, COORD_LIMIT as int);
        lemma_signed_product_bound(t.num as int, d as int, RAT_NUM_LIMIT as int, COORD_LIMIT as int);
    }
    (o as i128) * t.den + t.num * (d as i128)
}

/// A time between the slab entry and exit of an axis with positive
/// direction evaluates inside the slab.
proof fn lemma_axis_point_pos(o: int, d: int, lo: int, hi: int, tn: int, td: int) by (nonlinear_arith)
    requires
        1 <= td,
        1 <= d,
        (lo - o) * td <= tn * d,
        tn * d <= (hi - o) * td,
    ensures
        lo * td <= o * td + tn * d <= hi * td,
{
}

/// The same for an axis with negative direction, whose slab times carry the
/// denominator -d.
proof fn lemma_axis_point_neg(o: int, d: int, lo: int, hi: int, tn: int, td: int) by (nonlinear_arith)
    requires
        1 <= td,
        d <= -1,
        (o - hi) * td <= tn * (0 - d),
        tn * (0 - d) <= (o - lo) * td,
    ensures
        lo * td <= o * td + tn * d <= hi * td,
{
}

/// Scaling an ordering by a positive factor keeps it.
proof fn lemma_mul_le_mono(a: int, b: int, c: int) by (nonlinear_arith)
    requires
        a <= b,
        1 <= c,
    ensures
        a * c <= b * c,
{
}

/// The bounds of one axis: the far time evaluates inside the axis slab.
proof fn lemma_axis_far_in_slab(o: i64, d: i64, lo: i64, hi: i64, n: Rat, f: Rat)
    requires
        1 <= n.den,
        1 <= f.den,
        rat_le(n, f),
        d != 0 ==> rat_le(axis_lo(o, d, lo, hi), n) && rat_le(f, axis_hi(o, d, lo, hi)),
        d == 0 ==> lo <= o <= hi,
        -COORD_LIMIT <= o <= COORD_LIMIT,
        -COORD_LIMIT <= d <= COORD_LIMIT,
        -COORD_LIMIT <= lo <= COORD_LIMIT,
        -COORD_LIMIT <= hi <= COORD_LIMIT,
    ensures
        lo * f.den <= point_num(o, d, f) <= hi * f.den,
{
    if d == 0 {
        lemma_mul_le_mono(lo as int, o as int, f.den as int);
        lemma_mul_le_mono(o as int, hi as int, f.den as int);
    } else {
        lemma_rat_le_trans(axis_lo(o, d, lo, hi), n, f);
        if d > 0 {
            lemma_axis_point_pos(o as int, d as int, lo as int, hi as int, f.num as int, f.den as int);
        } else {
            lemma_axis_point_neg(o as int, d as int, lo as int, hi as int, f.num as int, f.den as int);
        }
    }
}

/// Law: the far time of a slab hit evaluates, on every axis, to a point
/// inside the box — in exact arithmetic the picked point never overshoots,
/// so the cursor clamp guards only the rounding of the stored coordinates.
pub proof fn lemma_far_point_in_box(ray: Ray, aabb: Aabb, h: RayHit)
    requires
        ray.wf(),
        aabb.wf(),
        slab_hit(ray, aabb) == Some(h),
    ensures
        1 <= h.t_far.den,
        aabb.min.x * h.t_far.den <= point_num(ray.origin.x, ray.dir.x, h.t_far) <= aabb.max.x
            * h.t_far.den,
        aabb.min.y * h.t_far.den <= point_num(ray.origin.y, ray.dir.y, h.t_far) <= aabb.max.y
            * h.t_far.den,
        aabb.min.z * h.t_far.den <= point_num(ray.origin.z, ray.dir.z, h.t_far) <= aabb.max.z
            * h.t_far.den,
{
    let lx = axis_lo(ray.origin.x, ray.dir.x, aabb.min.x, aabb.max.x);
    let ly = axis_lo(ray.origin.y, ray.dir.y, aabb.min.y, aabb.max.y);
    let lz = axis_lo(ray.origin.z, ray.dir.z, aabb.min.z, aabb.max.z);
    let hx = axis_hi(ray.origin.x, ray.dir.x, aabb.min.x, aabb.max.x);
    let hy = axis_hi(ray.origin.y, ray.dir.y, aabb.min.y, aabb.max.y);
    let hz = axis_hi(ray.origin.z, ray.dir.z, aabb.min.z, aabb.max.z);
    let n = h.t_near;
    let f = h.t_far;
    lemma_fold3_max(ray.dir.x != 0, lx, ray.dir.y != 0, ly, ray.dir.z != 0, lz, n);
    lemma_fold3_min(ray.dir.x != 0, hx, ray.dir.y != 0, hy, ray.dir.z != 0, hz, f);
    lemma_axis_far_in_slab(ray.origin.x, ray.dir.x, aabb.min.x, aabb.max.x, n, f);
    lemma_axis_far_in_slab(ray.origin.y, ray.dir.y, aabb.min.y, aabb.max.y, n, f);
    lemma_axis_far_in_slab(ray.origin.z, ray.dir.z, aabb.min.z, aabb.max.z, n, f);
}

/// Intersects the ray with the box and keeps only a floor-plane hit: the far
/// hit point, exact, when its height is within FLOOR_EPSILON of the box's
/// bottom; nothing otherwise.
pub fn ray_pick(ray: &Ray, aabb: &Aabb) -> (r: Option<HitPoint>)
    requires
        ray.wf(),
        aabb.wf(),
    ensures
        r == spec_pick(*ray, *aabb),
        r matches Some(p) ==> p.bounded(),
{
    match hits_aabb(ray, aabb) {
        None => None,
        Some(h) => {
            let py: i128 = point_num_exec(ray.origin.y, ray.dir.y, &h.t_far);
            proof {
                lemma_signed_product_bound(
                    aabb.min.y as int,
                    h.t_far.den as int,
                    COORD_LIMIT as int,
                    COORD_LIMIT as int,
                );
            }
            let miny_den: i128 = (aabb.min.y as i128) * h.t_far.den;
            let eps_den: i128 = (FLOOR_EPSILON as i128) * h.t_far.den;
            if py - miny_den > eps_den {
                None
            } else {
                let px: i128 = point_num_exec(ray.origin.x, ray.dir.x, &h.t_far);
                let pz: i128 = point_num_exec(ray.origin.z, ray.dir.z, &h.t_far);
                Some(HitPoint { num_x: px, num_y: py, num_z: pz, den: h.t_far.den })
            }
        },
    }
}

} // verus!
