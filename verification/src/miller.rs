use vstd::prelude::*;

verus! {

/// Whether a mathematical integer is representable as an `i32`.
pub open spec fn fits_i32(x: int) -> bool {
    i32::MIN <= x <= i32::MAX
}

/// Miller index (h, k, l) specifying a crystal plane.
#[derive(Debug, Clone, PartialEq, Eq, Structural, Hash)]
pub struct Miller {
    pub h: i32,
    pub k: i32,
    pub l: i32,
}

impl Miller {
    /// The index as a triple of mathematical integers.
    pub open spec fn view(&self) -> (int, int, int) {
        (self.h as int, self.k as int, self.l as int)
    }

    /// A Miller index names a plane unless all three components are zero.
    pub open spec fn spec_valid(&self) -> bool {
        !(self.h == 0 && self.k == 0 && self.l == 0)
    }

    /// The dot product of two indices, as vectors.
    pub open spec fn spec_dot(&self, other: &Miller) -> int {
        self.h * other.h + self.k * other.k + self.l * other.l
    }

    /// The squared length of the index, as a vector.
    pub open spec fn spec_norm2(&self) -> int {
        self.spec_dot(self)
    }

    /// The cross product of two indices: the direction common to both planes.
    pub open spec fn spec_cross(&self, other: &Miller) -> (int, int, int) {
        (
            self.k * other.l - self.l * other.k,
            self.l * other.h - self.h * other.l,
            self.h * other.k - self.k * other.h,
        )
    }

    /// The test that `is_parallel_to` performs: both indices are planes,
    /// and the z and y components of their cross product vanish.
    pub open spec fn spec_parallel(&self, other: &Miller) -> bool {
        &&& self.spec_valid()
        &&& other.spec_valid()
        &&& self.h * other.k == self.k * other.h
        &&& self.h * other.l == self.l * other.h
    }

    /// Every intermediate step of the cross product fits in an `i32`.
    pub open spec fn cross_fits(&self, other: &Miller) -> bool {
        &&& fits_i32(self.k * other.l)
        &&& fits_i32(self.l * other.k)
        &&& fits_i32(self.l * other.h)
        &&& fits_i32(self.h * other.l)
        &&& fits_i32(self.h * other.k)
        &&& fits_i32(self.k * other.h)
        &&& fits_i32(self.spec_cross(other).0)
        &&& fits_i32(self.spec_cross(other).1)
        &&& fits_i32(self.spec_cross(other).2)
    }

    /// Every intermediate step of the dot product fits in an `i32`.
    pub open spec fn dot_fits(&self, other: &Miller) -> bool {
        &&& fits_i32(self.h * other.h)
        &&& fits_i32(self.k * other.k)
        &&& fits_i32(self.l * other.l)
        &&& fits_i32(self.h * other.h + self.k * other.k)
        &&& fits_i32(self.spec_dot(other))
    }

    pub fn new(h: i32, k: i32, l: i32) -> (m: Self)
        ensures
            m.h == h,
            m.k == k,
            m.l == l,
    {
        Self { h, k, l }
    }

    /// The index (0, 0, 0), which names no plane.
    pub fn zero() -> (m: Self)
        ensures
            m@ == (0int, 0int, 0int),
            !m.spec_valid(),
    {
        Self::new(0, 0, 0)
    }

    pub fn is_valid(&self) -> (r: bool)
        ensures
            r == self.spec_valid(),
    {
        !(self.h == 0 && self.k == 0 && self.l == 0)
    }

    /// Whether two planes are parallel, judged by comparing h with k and
    /// h with l cross-wise; false when either index is (0, 0, 0).
    pub fn is_parallel_to(&self, other: &Miller) -> (r: bool)
        requires
            self.spec_valid() && other.spec_valid() ==> {
                &&& fits_i32(self.h * other.k)
                &&& fits_i32(self.k * other.h)
                &&& self.h * other.k == self.k * other.h ==> fits_i32(self.h * other.l) && fits_i32(
                    self.l * other.h,
                )
            },
        ensures
            r == self.spec_parallel(other),
    {
        if !self.is_valid() || !other.is_valid() {
            return false;
        }
        self.h * other.k == self.k * other.h && self.h * other.l == self.l * other.h
    }

    /// h + k + l.
    pub fn sum(&self) -> (s: i32)
        requires
            fits_i32(self.h + self.k),
            fits_i32(self.h + self.k + self.l),
        ensures
            s == self.h + self.k + self.l,
    {
        self.h + self.k + self.l
    }

    /// h² + k² + l².
    pub fn magnitude_squared(&self) -> (m: i32)
        requires
            self.spec_norm2() <= i32::MAX,
        ensures
            m == self.spec_norm2(),
    {
        proof {
            lemma_squares_bounded(self.h as int, self.k as int, self.l as int);
        }
        self.h * self.h + self.k * self.k + self.l * self.l
    }

    /// h·h' + k·k' + l·l', the integer part of the angle between two planes.
    pub fn dot(&self, other: &Miller) -> (d: i32)
        requires
            self.dot_fits(other),
        ensures
            d == self.spec_dot(other),
    {
        self.h * other.h + self.k * other.k + self.l * other.l
    }

    /// The zone axis of two planes: the cross product of their indices.
    pub fn zone_axis(&self, other: &Miller) -> (z: Miller)
        requires
            self.cross_fits(other),
        ensures
            z@ == self.spec_cross(other),
    {
        Miller::new(
            self.k * other.l - self.l * other.k,
            self.l * other.h - self.h * other.l,
            self.h * other.k - self.k * other.h,
        )
    }
}

/// The zone axis is anti-commutative: swapping the two planes reverses it.
pub proof fn lemma_zone_axis_anticommutative(a: Miller, b: Miller)
    ensures
        a.spec_cross(&b).0 == -b.spec_cross(&a).0,
        a.spec_cross(&b).1 == -b.spec_cross(&a).1,
        a.spec_cross(&b).2 == -b.spec_cross(&a).2,
{
    assert(a.k * b.l == b.l * a.k) by (nonlinear_arith);
    assert(a.l * b.k == b.k * a.l) by (nonlinear_arith);
    assert(a.l * b.h == b.h * a.l) by (nonlinear_arith);
    assert(a.h * b.l == b.l * a.h) by (nonlinear_arith);
    assert(a.h * b.k == b.k * a.h) by (nonlinear_arith);
    assert(a.k * b.h == b.h * a.k) by (nonlinear_arith);
}

/// The zone axis of a plane with itself is (0, 0, 0).
pub proof fn lemma_zone_axis_self_is_zero(a: Miller)
    ensures
        a.spec_cross(&a) == (0int, 0int, 0int),
{
    lemma_zone_axis_anticommutative(a, a);
}

/// The zone axis lies in both planes: it is perpendicular to both indices.
pub proof fn lemma_zone_axis_perpendicular(a: Miller, b: Miller)
    ensures
        a.spec_cross(&b).0 * a.h + a.spec_cross(&b).1 * a.k + a.spec_cross(&b).2 * a.l == 0,
        a.spec_cross(&b).0 * b.h + a.spec_cross(&b).1 * b.k + a.spec_cross(&b).2 * b.l == 0,
{
    let (ah, ak, al) = (a.h as int, a.k as int, a.l as int);
    let (bh, bk, bl) = (b.h as int, b.k as int, b.l as int);
    assert((ak * bl - al * bk) * ah + (al * bh - ah * bl) * ak + (ah * bk - ak * bh) * al == 0)
        by (nonlinear_arith);
    assert((ak * bl - al * bk) * bh + (al * bh - ah * bl) * bk + (ah * bk - ak * bh) * bl == 0)
        by (nonlinear_arith);
}

/// The squared magnitude is never negative, and it is zero exactly for the
/// index (0, 0, 0), which names no plane.
pub proof fn lemma_magnitude_zero_iff_invalid(a: Miller)
    ensures
        a.spec_norm2() >= 0,
        a.spec_norm2() == 0 <==> !a.spec_valid(),
{
    let (h, k, l) = (a.h as int, a.k as int, a.l as int);
    assert(h * h >= 0 && k * k >= 0 && l * l >= 0) by (nonlinear_arith);
    assert(h != 0 ==> h * h > 0) by (nonlinear_arith);
    assert(k != 0 ==> k * k > 0) by (nonlinear_arith);
    assert(l != 0 ==> l * l > 0) by (nonlinear_arith);
}

/// Parallelism is symmetric.
pub proof fn lemma_parallel_symmetric(a: Miller, b: Miller)
    ensures
        a.spec_parallel(&b) == b.spec_parallel(&a),
{
    assert(a.h * b.k == b.k * a.h) by (nonlinear_arith);
    assert(a.k * b.h == b.h * a.k) by (nonlinear_arith);
    assert(a.h * b.l == b.l * a.h) by (nonlinear_arith);
    assert(a.l * b.h == b.h * a.l) by (nonlinear_arith);
}

/// Every plane is parallel to itself.
pub proof fn lemma_parallel_reflexive(a: Miller)
    requires
        a.spec_valid(),
    ensures
        a.spec_parallel(&a),
{
    assert(a.h * a.k == a.k * a.h) by (nonlinear_arith);
    assert(a.h * a.l == a.l * a.h) by (nonlinear_arith);
}

/// Two planes whose zone axis vanishes are reported parallel.
pub proof fn lemma_zero_zone_axis_is_parallel(a: Miller, b: Miller)
    requires
        a.spec_valid(),
        b.spec_valid(),
        a.spec_cross(&b) == (0int, 0int, 0int),
    ensures
        a.spec_parallel(&b),
{
}

/// Planes reported parallel have a vanishing zone axis, provided one of
/// them has a nonzero h (with both h zero only two of the three
/// cross-product components are compared).
pub proof fn lemma_parallel_has_zero_zone_axis(a: Miller, b: Miller)
    requires
        a.spec_parallel(&b),
        a.h != 0 || b.h != 0,
    ensures
        a.spec_cross(&b) == (0int, 0int, 0int),
{
    let (ah, ak, al) = (a.h as int, a.k as int, a.l as int);
    let (bh, bk, bl) = (b.h as int, b.k as int, b.l as int);
    if ah != 0 {
        assert(ak * bl - al * bk == 0) by (nonlinear_arith)
            requires
                ah != 0,
                ah * bk == ak * bh,
                ah * bl == al * bh,
        {
            assert(ah * (ak * bl - al * bk) == ak * (ah * bl) - al * (ah * bk));
            assert(ah * (ak * bl - al * bk) == ak * (al * bh) - al * (ak * bh));
            assert(ah * (ak * bl - al * bk) == 0);
        }
    } else {
        assert(ak * bh == 0);
        assert(al * bh == 0);
        assert(ak == 0) by (nonlinear_arith)
            requires
                bh != 0,
                ak * bh == 0,
        ;
        assert(al == 0) by (nonlinear_arith)
            requires
                bh != 0,
                al * bh == 0,
        ;
        assert(false);
    }
}

/// The zone axis is additive in its first plane: the axis of a sum of
/// indices is the sum of the axes.
pub proof fn lemma_zone_axis_additive(a: Miller, b: Miller, s: Miller, c: Miller)
    requires
        s.h == a.h + b.h,
        s.k == a.k + b.k,
        s.l == a.l + b.l,
    ensures
        s.spec_cross(&c).0 == a.spec_cross(&c).0 + b.spec_cross(&c).0,
        s.spec_cross(&c).1 == a.spec_cross(&c).1 + b.spec_cross(&c).1,
        s.spec_cross(&c).2 == a.spec_cross(&c).2 + b.spec_cross(&c).2,
{
    let (ah, ak, al) = (a.h as int, a.k as int, a.l as int);
    let (bh, bk, bl) = (b.h as int, b.k as int, b.l as int);
    let (ch, ck, cl) = (c.h as int, c.k as int, c.l as int);
    assert((ak + bk) * cl == ak * cl + bk * cl) by (nonlinear_arith);
    assert((al + bl) * ck == al * ck + bl * ck) by (nonlinear_arith);
    assert((al + bl) * ch == al * ch + bl * ch) by (nonlinear_arith);
    assert((ah + bh) * cl == ah * cl + bh * cl) by (nonlinear_arith);
    assert((ah + bh) * ck == ah * ck + bh * ck) by (nonlinear_arith);
    assert((ak + bk) * ch == ak * ch + bk * ch) by (nonlinear_arith);
}

/// The zone axes of the coordinate planes follow the right-hand rule:
/// (100)×(010) = [001], (010)×(001) = [100], (001)×(100) = [010].
pub proof fn lemma_zone_axis_of_coordinate_planes(x: Miller, y: Miller, z: Miller)
    requires
        x@ == (1int, 0int, 0int),
        y@ == (0int, 1int, 0int),
        z@ == (0int, 0int, 1int),
    ensures
        x.spec_cross(&y) == (0int, 0int, 1int),
        y.spec_cross(&z) == (1int, 0int, 0int),
        z.spec_cross(&x) == (0int, 1int, 0int),
{
}

/// Lagrange's identity: the squared length of the zone axis is
/// |a|²·|b|² − (a·b)², all written out in the components. With the
/// perpendicularity law this fixes the axis up to its sign, and it is
/// nonzero whenever the two planes are not parallel.
pub proof fn lemma_zone_axis_length(a: Miller, b: Miller)
    ensures
        ({
            let c = a.spec_cross(&b);
            c.0 * c.0 + c.1 * c.1 + c.2 * c.2 == (a.h * a.h + a.k * a.k + a.l * a.l) * (b.h * b.h
                + b.k * b.k + b.l * b.l) - (a.h * b.h + a.k * b.k + a.l * b.l) * (a.h * b.h + a.k
                * b.k + a.l * b.l)
        }),
{
    let (ah, ak, al) = (a.h as int, a.k as int, a.l as int);
    let (bh, bk, bl) = (b.h as int, b.k as int, b.l as int);
    lemma_square_of_difference(ak * bl, al * bk);
    lemma_square_of_difference(al * bh, ah * bl);
    lemma_square_of_difference(ah * bk, ak * bh);
    lemma_square_of_sum3(ah * bh, ak * bk, al * bl);
    lemma_product_of_sums3(ah * ah, ak * ak, al * al, bh * bh, bk * bk, bl * bl);
    lemma_mul_regroup(ak, bl, ak, bl);
    lemma_mul_regroup(al, bk, al, bk);
    lemma_mul_regroup(al, bh, al, bh);
    lemma_mul_regroup(ah, bl, ah, bl);
    lemma_mul_regroup(ah, bk, ah, bk);
    lemma_mul_regroup(ak, bh, ak, bh);
    lemma_mul_regroup(ah, bh, ah, bh);
    lemma_mul_regroup(ak, bk, ak, bk);
    lemma_mul_regroup(al, bl, al, bl);
    lemma_mul_regroup(ak, bl, al, bk);
    lemma_mul_regroup(al, bh, ah, bl);
    lemma_mul_regroup(ah, bk, ak, bh);
    lemma_mul_regroup(ah, bh, ak, bk);
    lemma_mul_regroup(ah, bh, al, bl);
    lemma_mul_regroup(ak, bk, al, bl);
}

/// The zone axis is right-handed: the triple product det[a, b, a×b] is the
/// squared length of the axis, never negative.
pub proof fn lemma_zone_axis_right_handed(a: Miller, b: Miller)
    ensures
        ({
            let c = a.spec_cross(&b);
            &&& c.0 * (a.k * b.l - a.l * b.k) + c.1 * (a.l * b.h - a.h * b.l) + c.2 * (a.h * b.k
                - a.k * b.h) == c.0 * c.0 + c.1 * c.1 + c.2 * c.2
            &&& c.0 * c.0 + c.1 * c.1 + c.2 * c.2 >= 0
        }),
{
    let c = a.spec_cross(&b);
    assert(c.0 * c.0 >= 0 && c.1 * c.1 >= 0 && c.2 * c.2 >= 0) by (nonlinear_arith);
}

/// The dot product is symmetric.
pub proof fn lemma_dot_symmetric(a: Miller, b: Miller)
    ensures
        a.spec_dot(&b) == b.spec_dot(&a),
{
    assert(a.h * b.h == b.h * a.h) by (nonlinear_arith);
    assert(a.k * b.k == b.k * a.k) by (nonlinear_arith);
    assert(a.l * b.l == b.l * a.l) by (nonlinear_arith);
}

/// The dot product is additive in its first index, and negating an index
/// negates the dot product.
pub proof fn lemma_dot_linear(a: Miller, b: Miller, s: Miller, n: Miller, c: Miller)
    requires
        s.h == a.h + b.h,
        s.k == a.k + b.k,
        s.l == a.l + b.l,
        n.h == -a.h,
        n.k == -a.k,
        n.l == -a.l,
    ensures
        s.spec_dot(&c) == a.spec_dot(&c) + b.spec_dot(&c),
        n.spec_dot(&c) == -a.spec_dot(&c),
{
    let (ah, ak, al) = (a.h as int, a.k as int, a.l as int);
    let (bh, bk, bl) = (b.h as int, b.k as int, b.l as int);
    let (ch, ck, cl) = (c.h as int, c.k as int, c.l as int);
    assert((ah + bh) * ch == ah * ch + bh * ch) by (nonlinear_arith);
    assert((ak + bk) * ck == ak * ck + bk * ck) by (nonlinear_arith);
    assert((al + bl) * cl == al * cl + bl * cl) by (nonlinear_arith);
    assert((-ah) * ch == -(ah * ch)) by (nonlinear_arith);
    assert((-ak) * ck == -(ak * ck)) by (nonlinear_arith);
    assert((-al) * cl == -(al * cl)) by (nonlinear_arith);
}

/// The dot product with a coordinate plane picks out one component:
/// (100)·c = c.h, (010)·c = c.k, (001)·c = c.l.
pub proof fn lemma_dot_with_coordinate_planes(x: Miller, y: Miller, z: Miller, c: Miller)
    requires
        x@ == (1int, 0int, 0int),
        y@ == (0int, 1int, 0int),
        z@ == (0int, 0int, 1int),
    ensures
        x.spec_dot(&c) == c.h,
        y.spec_dot(&c) == c.k,
        z.spec_dot(&c) == c.l,
{
}

/// (x − y)² = x² − 2xy + y².
proof fn lemma_square_of_difference(x: int, y: int)
    ensures
        (x - y) * (x - y) == x * x - 2 * (x * y) + y * y,
{
    assert((x - y) * (x - y) == x * x - 2 * (x * y) + y * y) by (nonlinear_arith);
}

/// (x + y + z)² expanded.
proof fn lemma_square_of_sum3(x: int, y: int, z: int)
    ensures
        (x + y + z) * (x + y + z) == x * x + y * y + z * z + 2 * (x * y) + 2 * (x * z) + 2 * (y
            * z),
{
    assert((x + y + z) * (x + y + z) == x * x + y * y + z * z + 2 * (x * y) + 2 * (x * z) + 2 * (
    y * z)) by (nonlinear_arith);
}

/// (x + y + z)(u + v + w) expanded.
proof fn lemma_product_of_sums3(x: int, y: int, z: int, u: int, v: int, w: int)
    ensures
        (x + y + z) * (u + v + w) == x * u + x * v + x * w + y * u + y * v + y * w + z * u + z * v
            + z * w,
{
    assert((x + y + z) * (u + v + w) == x * u + x * v + x * w + y * u + y * v + y * w + z * u + z
        * v + z * w) by (nonlinear_arith);
}

/// (p·q)(r·s) = (p·r)(q·s).
proof fn lemma_mul_regroup(p: int, q: int, r: int, s: int)
    ensures
        (p * q) * (r * s) == (p * r) * (q * s),
{
    assert((p * q) * (r * s) == (p * r) * (q * s)) by (nonlinear_arith);
}

/// Each partial sum of three squares is bounded by the whole sum.
proof fn lemma_squares_bounded(h: int, k: int, l: int)
    ensures
        0 <= h * h,
        0 <= k * k,
        0 <= l * l,
        h * h <= h * h + k * k,
        h * h + k * k <= h * h + k * k + l * l,
{
    assert(0 <= h * h) by (nonlinear_arith);
    assert(0 <= k * k) by (nonlinear_arith);
    assert(0 <= l * l) by (nonlinear_arith);
}

} // verus!
