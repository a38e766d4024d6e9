//! A three-dimensional vector over fixed-point scalars.

use vstd::prelude::*;

use crate::fixed::{
    fx_add, fx_div, fx_from_int, fx_mul, fx_neg, fx_sqrt, fx_sub, lemma_fx_div_by_positive,
    lemma_fx_mul_neg_left, lemma_fx_mul_neg_one, lemma_fx_mul_one, lemma_fx_mul_two,
    lemma_fx_square_bracket, lemma_fx_square_le_one, lemma_isqrt_bracket, spec_isqrt, Fx,
    FX_MAX_RAW, FX_ONE,
};

use vstd::math::abs;

verus! {

/// Mathematical model of a vector: three raw fixed-point components.
pub ghost struct V3 {
    pub x: int,
    pub y: int,
    pub z: int,
}

/// Component-wise sum.
pub open spec fn v3_add(a: V3, b: V3) -> V3 {
    V3 { x: fx_add(a.x, b.x), y: fx_add(a.y, b.y), z: fx_add(a.z, b.z) }
}

/// Component-wise difference.
pub open spec fn v3_sub(a: V3, b: V3) -> V3 {
    V3 { x: fx_sub(a.x, b.x), y: fx_sub(a.y, b.y), z: fx_sub(a.z, b.z) }
}

/// Component-wise negation.
pub open spec fn v3_neg(a: V3) -> V3 {
    V3 { x: fx_neg(a.x), y: fx_neg(a.y), z: fx_neg(a.z) }
}

/// Scale every component by `s`.
pub open spec fn v3_scale(a: V3, s: int) -> V3 {
    V3 { x: fx_mul(a.x, s), y: fx_mul(a.y, s), z: fx_mul(a.z, s) }
}

/// The cross product.
pub open spec fn v3_cross(a: V3, b: V3) -> V3 {
    V3 {
        x: fx_sub(fx_mul(a.y, b.z), fx_mul(a.z, b.y)),
        y: fx_sub(fx_mul(a.z, b.x), fx_mul(a.x, b.z)),
        z: fx_sub(fx_mul(a.x, b.y), fx_mul(a.y, b.x)),
    }
}

/// The dot product, accumulated left to right.
pub open spec fn v3_dot(a: V3, b: V3) -> int {
    fx_add(fx_add(fx_mul(a.x, b.x), fx_mul(a.y, b.y)), fx_mul(a.z, b.z))
}

/// The Euclidean length: square root of the dot product with itself.
pub open spec fn v3_length(a: V3) -> int {
    fx_sqrt(v3_dot(a, a))
}

/// Each component divided by the length. Division by a zero length
/// yields the zero vector, the guarded choice for degenerate input.
pub open spec fn v3_normalized(a: V3) -> V3 {
    let len = v3_length(a);
    V3 { x: fx_div(a.x, len), y: fx_div(a.y, len), z: fx_div(a.z, len) }
}

/// Reflection about a normal: `v - n * (v . n) * 2`.
pub open spec fn v3_reflect(v: V3, n: V3) -> V3 {
    v3_sub(v, v3_scale(v3_scale(n, v3_dot(v, n)), fx_from_int(2)))
}

/// Snell's-law refraction. A negative discriminant (total internal
/// reflection) degenerates to the zero vector.
pub open spec fn v3_refract(v: V3, n: V3, eta: int) -> V3 {
    let d = v3_dot(v, n);
    let one = fx_from_int(1);
    let k = fx_sub(one, fx_mul(fx_mul(fx_mul(eta, eta), fx_sub(one, d)), d));
    if k < 0 {
        V3 { x: 0, y: 0, z: 0 }
    } else {
        v3_sub(v3_scale(v, eta), v3_scale(n, fx_add(fx_mul(eta, d), fx_sqrt(k))))
    }
}

/// Normalization is guarded for the degenerate case: a vector of zero
/// length normalizes to the zero vector instead of faulting.
pub proof fn lemma_normalized_zero_guarded(v: V3)
    requires
        v3_length(v) == 0,
    ensures
        v3_normalized(v) == (V3 { x: 0int, y: 0int, z: 0int }),
{
}

/// Within fixed-point tolerance, a normalized vector has unit length:
/// for every vector of length at least one unit whose components are at
/// most a million units, the length of its normalization lies within
/// six raw units (six millionths) of 1.0. Shorter vectors lose relative
/// precision to truncation and are left out, as the zero vector is.
pub proof fn lemma_normalized_has_unit_length(v: V3)
    requires
        abs(v.x) <= 1_000_000_000_000,
        abs(v.y) <= 1_000_000_000_000,
        abs(v.z) <= 1_000_000_000_000,
        v3_dot(v, v) >= FX_ONE as int,
    ensures
        FX_ONE - 6 <= v3_length(v3_normalized(v)) <= FX_ONE + 2,
{
    let s = FX_ONE as int;
    let ax = abs(v.x) as int;
    let ay = abs(v.y) as int;
    let az = abs(v.z) as int;

    // The scaled squares of the components, each a floor within one
    // unit of the exact square.
    lemma_fx_square_bracket(v.x);
    lemma_fx_square_bracket(v.y);
    lemma_fx_square_bracket(v.z);
    let dx = fx_mul(v.x, v.x);
    let dy = fx_mul(v.y, v.y);
    let dz = fx_mul(v.z, v.z);
    assert(ax * ax == v.x * v.x && ax * ax <= 1_000_000_000_000_000_000_000_000)
        by (nonlinear_arith)
        requires
            ax == v.x || ax == -v.x,
            0 <= ax <= 1_000_000_000_000,
    ;
    assert(ay * ay == v.y * v.y && ay * ay <= 1_000_000_000_000_000_000_000_000)
        by (nonlinear_arith)
        requires
            ay == v.y || ay == -v.y,
            0 <= ay <= 1_000_000_000_000,
    ;
    assert(az * az == v.z * v.z && az * az <= 1_000_000_000_000_000_000_000_000)
        by (nonlinear_arith)
        requires
            az == v.z || az == -v.z,
            0 <= az <= 1_000_000_000_000,
    ;
    assert(dx <= 1_000_000_000_000_000_000);
    assert(dy <= 1_000_000_000_000_000_000);
    assert(dz <= 1_000_000_000_000_000_000);

    // The fixed dot product adds the floors exactly: no saturation.
    let d = v3_dot(v, v);
    assert(d == dx + dy + dz);
    let vv = ax * ax + ay * ay + az * az;
    assert(d * s <= vv < d * s + 3 * s);

    // The fixed length is the integer square root of the rescaled dot.
    let l = v3_length(v);
    assert(l == spec_isqrt(d * s));
    lemma_isqrt_bracket(d * s);
    assert(l >= s) by (nonlinear_arith)
        requires
            l >= 0,
            (l + 1) * (l + 1) > d * s,
            d >= s,
            s == 1_000_000,
    ;
    assert(l <= 2_000_000_000_000) by (nonlinear_arith)
        requires
            l >= 0,
            l * l <= d * s,
            d <= 3_000_000_000_000_000_000,
            s == 1_000_000,
    ;

    // The normalized components divide by the length, each a floor
    // within one unit of the exact quotient.
    lemma_fx_div_by_positive(v.x, l);
    lemma_fx_div_by_positive(v.y, l);
    lemma_fx_div_by_positive(v.z, l);
    let nx = fx_div(v.x, l);
    let ny = fx_div(v.y, l);
    let nz = fx_div(v.z, l);
    let mx = (ax * s) / l;
    let my = (ay * s) / l;
    let mz = (az * s) / l;
    assert(mx <= 1_000_000_000_000) by (nonlinear_arith)
        requires
            mx * l <= ax * s,
            0 <= ax <= 1_000_000_000_000,
            l >= 1_000_000,
            s == 1_000_000,
            mx >= 0,
    ;
    assert(my <= 1_000_000_000_000) by (nonlinear_arith)
        requires
            my * l <= ay * s,
            0 <= ay <= 1_000_000_000_000,
            l >= 1_000_000,
            s == 1_000_000,
            my >= 0,
    ;
    assert(mz <= 1_000_000_000_000) by (nonlinear_arith)
        requires
            mz * l <= az * s,
            0 <= az <= 1_000_000_000_000,
            l >= 1_000_000,
            s == 1_000_000,
            mz >= 0,
    ;
    assert(abs(nx) == mx && abs(ny) == my && abs(nz) == mz);

    // The squared length of the normalization, in scaled floors again.
    lemma_fx_square_bracket(nx);
    lemma_fx_square_bracket(ny);
    lemma_fx_square_bracket(nz);
    let qx = fx_mul(nx, nx);
    let qy = fx_mul(ny, ny);
    let qz = fx_mul(nz, nz);
    assert(nx * nx == mx * mx) by (nonlinear_arith)
        requires
            nx == mx || nx == -mx,
    ;
    assert(ny * ny == my * my) by (nonlinear_arith)
        requires
            ny == my || ny == -my,
    ;
    assert(nz * nz == mz * mz) by (nonlinear_arith)
        requires
            nz == mz || nz == -mz,
    ;
    assert(mx * mx <= 1_000_000_000_000_000_000_000_000) by (nonlinear_arith)
        requires
            0 <= mx <= 1_000_000_000_000,
    ;
    assert(my * my <= 1_000_000_000_000_000_000_000_000) by (nonlinear_arith)
        requires
            0 <= my <= 1_000_000_000_000,
    ;
    assert(mz * mz <= 1_000_000_000_000_000_000_000_000) by (nonlinear_arith)
        requires
            0 <= mz <= 1_000_000_000_000,
    ;
    assert(qx <= 1_000_000_000_000_000_000);
    assert(qy <= 1_000_000_000_000_000_000);
    assert(qz <= 1_000_000_000_000_000_000);
    let n = v3_normalized(v);
    assert(n.x == nx && n.y == ny && n.z == nz);
    let q = v3_dot(n, n);
    assert(q == qx + qy + qz);

    // Upper bound: the scaled squares undershoot the exact ones, so the
    // squared length overshoots 1.0 by at most the truncation slack.
    assert(qx * (s * (l * l)) <= (ax * ax) * (s * s)) by (nonlinear_arith)
        requires
            qx * s <= mx * mx,
            mx * l <= ax * s,
            mx >= 0,
            ax >= 0,
            l >= 1,
            s >= 1,
            qx >= 0,
    ;
    assert(qy * (s * (l * l)) <= (ay * ay) * (s * s)) by (nonlinear_arith)
        requires
            qy * s <= my * my,
            my * l <= ay * s,
            my >= 0,
            ay >= 0,
            l >= 1,
            s >= 1,
            qy >= 0,
    ;
    assert(qz * (s * (l * l)) <= (az * az) * (s * s)) by (nonlinear_arith)
        requires
            qz * s <= mz * mz,
            mz * l <= az * s,
            mz >= 0,
            az >= 0,
            l >= 1,
            s >= 1,
            qz >= 0,
    ;
    assert(q * (s * (l * l)) <= vv * (s * s)) by (nonlinear_arith)
        requires
            qx * (s * (l * l)) <= (ax * ax) * (s * s),
            qy * (s * (l * l)) <= (ay * ay) * (s * s),
            qz * (s * (l * l)) <= (az * az) * (s * s),
            q == qx + qy + qz,
            vv == ax * ax + ay * ay + az * az,
    ;
    assert(q <= s + 6) by (nonlinear_arith)
        requires
            q * (s * (l * l)) <= vv * (s * s),
            vv < d * s + 3 * s,
            d * s < (l + 1) * (l + 1),
            l >= s,
            s == 1_000_000,
            q >= 0,
    ;

    // Lower bound: each floor loses less than one scaled unit, and each
    // quotient less than one raw unit, so the squared length undershoots
    // 1.0 by a bounded slack.
    assert((mx * l) * (mx * l) >= (ax * s) * (ax * s) - 2 * (ax * s) * l) by (nonlinear_arith)
        requires
            ax * s < mx * l + l,
            mx >= 0,
            ax >= 0,
            l >= 1,
            s >= 1,
    ;
    assert((my * l) * (my * l) >= (ay * s) * (ay * s) - 2 * (ay * s) * l) by (nonlinear_arith)
        requires
            ay * s < my * l + l,
            my >= 0,
            ay >= 0,
            l >= 1,
            s >= 1,
    ;
    assert((mz * l) * (mz * l) >= (az * s) * (az * s) - 2 * (az * s) * l) by (nonlinear_arith)
        requires
            az * s < mz * l + l,
            mz >= 0,
            az >= 0,
            l >= 1,
            s >= 1,
    ;
    assert(ax <= l + 1734) by (nonlinear_arith)
        requires
            ax * ax <= vv,
            vv < d * s + 3 * s,
            d * s < (l + 1) * (l + 1),
            s == 1_000_000,
            l >= 1_000_000,
            ax >= 0,
    ;
    assert(ay <= l + 1734) by (nonlinear_arith)
        requires
            ay * ay <= vv,
            vv < d * s + 3 * s,
            d * s < (l + 1) * (l + 1),
            s == 1_000_000,
            l >= 1_000_000,
            ay >= 0,
    ;
    assert(az <= l + 1734) by (nonlinear_arith)
        requires
            az * az <= vv,
            vv < d * s + 3 * s,
            d * s < (l + 1) * (l + 1),
            s == 1_000_000,
            l >= 1_000_000,
            az >= 0,
    ;
    let t = s * (l * l);
    assert(qx * t > (mx * l) * (mx * l) - s * (l * l)) by (nonlinear_arith)
        requires
            qx * s > mx * mx - s,
            t == s * (l * l),
            l >= 1,
    ;
    assert(qy * t > (my * l) * (my * l) - s * (l * l)) by (nonlinear_arith)
        requires
            qy * s > my * my - s,
            t == s * (l * l),
            l >= 1,
    ;
    assert(qz * t > (mz * l) * (mz * l) - s * (l * l)) by (nonlinear_arith)
        requires
            qz * s > mz * mz - s,
            t == s * (l * l),
            l >= 1,
    ;
    assert((ax * s) * (ax * s) == (ax * ax) * (s * s) && (ay * s) * (ay * s) == (ay * ay) * (s * s)
        && (az * s) * (az * s) == (az * az) * (s * s)) by (nonlinear_arith);
    assert(2 * (ax * s) * l + 2 * (ay * s) * l + 2 * (az * s) * l == 2 * ((ax + ay + az) * (s * l)))
        by (nonlinear_arith);
    let asum = ax + ay + az;
    vstd::arithmetic::mul::lemma_mul_is_distributive_add_other_way(t, qx, qy);
    vstd::arithmetic::mul::lemma_mul_is_distributive_add_other_way(t, qx + qy, qz);
    assert(q * t == qx * t + qy * t + qz * t);
    vstd::arithmetic::mul::lemma_mul_is_distributive_add_other_way(s * s, ax * ax, ay * ay);
    vstd::arithmetic::mul::lemma_mul_is_distributive_add_other_way(
        s * s,
        ax * ax + ay * ay,
        az * az,
    );
    assert(vv * (s * s) == (ax * ax) * (s * s) + (ay * ay) * (s * s) + (az * az) * (s * s));
    assert(q * t > vv * (s * s) - 2 * (asum * (s * l)) - 3 * (s * (l * l)));
    assert(vv * (s * s) >= (l * l) * (s * s)) by (nonlinear_arith)
        requires
            vv >= d * s,
            d * s >= l * l,
            s >= 1,
    ;
    assert(2 * (asum * (s * l)) <= 2 * ((3 * l + 5202) * (s * l))) by (nonlinear_arith)
        requires
            0 <= asum <= 3 * l + 5202,
            s >= 1,
            l >= 1,
    ;
    assert(q >= s - 10) by (nonlinear_arith)
        requires
            q * (s * (l * l)) > (l * l) * (s * s) - 2 * ((3 * l + 5202) * (s * l)) - 3 * (s * (l
                * l)),
            l >= s,
            s == 1_000_000,
    ;

    // Rescale back: the fixed length of the normalization is the integer
    // square root of a value within slack of one, so it lies within a
    // few raw units of 1.0.
    let r = v3_length(n);
    assert(r == spec_isqrt(q * s));
    lemma_isqrt_bracket(q * s);
    assert(r <= s + 2) by (nonlinear_arith)
        requires
            r >= 0,
            r * r <= q * s,
            q <= s + 6,
            s == 1_000_000,
    ;
    assert(r >= s - 6) by (nonlinear_arith)
        requires
            r >= 0,
            (r + 1) * (r + 1) > q * s,
            q >= s - 10,
            s == 1_000_000,
    ;
}

/// A unit vector's components lie within one raw unit of magnitude.
pub open spec fn v3_unit_bounded(n: V3) -> bool {
    &&& v3_dot(n, n) == FX_ONE as int
    &&& abs(n.x) <= FX_ONE
    &&& abs(n.y) <= FX_ONE
    &&& abs(n.z) <= FX_ONE
}

/// Reflection about a normal flips a ray directly incident along the
/// normal: for an exactly unit normal `n`, reflecting `n` about itself
/// gives `-n`, and reflecting `-n` gives back `n` - an involution on
/// the normal's own line.
pub proof fn lemma_reflect_flips_normal_incidence(n: V3)
    requires
        v3_unit_bounded(n),
    ensures
        v3_reflect(n, n) == v3_neg(n),
        v3_reflect(v3_neg(n), n) == n,
{
    lemma_fx_mul_one(n.x);
    lemma_fx_mul_one(n.y);
    lemma_fx_mul_one(n.z);
    lemma_fx_mul_two(n.x);
    lemma_fx_mul_two(n.y);
    lemma_fx_mul_two(n.z);
    let m = v3_neg(n);
    assert(v3_dot(m, n) == -(FX_ONE as int)) by {
        lemma_fx_square_le_one(n.x);
        lemma_fx_square_le_one(n.y);
        lemma_fx_square_le_one(n.z);
        lemma_fx_mul_neg_left(n.x, n.x);
        lemma_fx_mul_neg_left(n.y, n.y);
        lemma_fx_mul_neg_left(n.z, n.z);
    }
    lemma_fx_mul_neg_one(n.x);
    lemma_fx_mul_neg_one(n.y);
    lemma_fx_mul_neg_one(n.z);
    lemma_fx_mul_two(-n.x);
    lemma_fx_mul_two(-n.y);
    lemma_fx_mul_two(-n.z);
}

/// The maximally-far vector: every component at the saturation bound.
pub open spec fn v3_max() -> V3 {
    V3 { x: FX_MAX_RAW as int, y: FX_MAX_RAW as int, z: FX_MAX_RAW as int }
}

/// A three-dimensional vector, copied by value.
#[derive(Clone, Copy, PartialEq, Eq, Structural, Debug)]
pub struct Vector3 {
    pub x: Fx,
    pub y: Fx,
    pub z: Fx,
}

impl View for Vector3 {
    type V = V3;

    open spec fn view(&self) -> V3 {
        V3 { x: self.x@, y: self.y@, z: self.z@ }
    }
}

impl Vector3 {
    /// Build a vector from its components.
    pub fn new(x: Fx, y: Fx, z: Fx) -> (r: Vector3)
        ensures
            r@ == (V3 { x: x@, y: y@, z: z@ }),
    {
        Vector3 { x, y, z }
    }

    /// The zero vector.
    pub fn zero() -> (r: Vector3)
        ensures
            r@ == (V3 { x: 0int, y: 0int, z: 0int }),
    {
        Vector3 { x: Fx::zero(), y: Fx::zero(), z: Fx::zero() }
    }

    /// The maximally-far vector, the sentinel for "no hit yet".
    pub fn max_vector() -> (r: Vector3)
        ensures
            r@ == v3_max(),
    {
        Vector3 {
            x: Fx::from_raw(FX_MAX_RAW),
            y: Fx::from_raw(FX_MAX_RAW),
            z: Fx::from_raw(FX_MAX_RAW),
        }
    }

    /// The first three scalars of a slice as a vector.
    pub fn from_slice(s: &[Fx]) -> (r: Vector3)
        requires
            s@.len() >= 3,
        ensures
            r@ == (V3 { x: s@[0]@, y: s@[1]@, z: s@[2]@ }),
    {
        Vector3 { x: s[0], y: s[1], z: s[2] }
    }

    /// Component-wise sum.
    pub fn add(self, other: Vector3) -> (r: Vector3)
        ensures
            r@ == v3_add(self@, other@),
    {
        Vector3 { x: self.x.add(other.x), y: self.y.add(other.y), z: self.z.add(other.z) }
    }

    /// Component-wise difference.
    pub fn sub(self, other: Vector3) -> (r: Vector3)
        ensures
            r@ == v3_sub(self@, other@),
    {
        Vector3 { x: self.x.sub(other.x), y: self.y.sub(other.y), z: self.z.sub(other.z) }
    }

    /// Component-wise negation.
    pub fn neg(self) -> (r: Vector3)
        ensures
            r@ == v3_neg(self@),
    {
        Vector3 { x: self.x.neg(), y: self.y.neg(), z: self.z.neg() }
    }

    /// Scale every component by `s`.
    pub fn scale(self, s: Fx) -> (r: Vector3)
        ensures
            r@ == v3_scale(self@, s@),
    {
        Vector3 { x: self.x.mul(s), y: self.y.mul(s), z: self.z.mul(s) }
    }

    /// The cross product.
    pub fn cross(&self, other: &Vector3) -> (r: Vector3)
        ensures
            r@ == v3_cross(self@, other@),
    {
        Vector3 {
            x: self.y.mul(other.z).sub(self.z.mul(other.y)),
            y: self.z.mul(other.x).sub(self.x.mul(other.z)),
            z: self.x.mul(other.y).sub(self.y.mul(other.x)),
        }
    }

    /// The dot product.
    pub fn dot(&self, other: &Vector3) -> (r: Fx)
        ensures
            r@ == v3_dot(self@, other@),
    {
        self.x.mul(other.x).add(self.y.mul(other.y)).add(self.z.mul(other.z))
    }

    /// The Euclidean length.
    pub fn length(&self) -> (r: Fx)
        ensures
            r@ == v3_length(self@),
    {
        self.dot(self).sqrt()
    }

    /// The unit vector in this direction; the zero vector when the
    /// length is zero.
    pub fn normalized(&self) -> (r: Vector3)
        ensures
            r@ == v3_normalized(self@),
    {
        let length = self.length();
        Vector3 { x: self.x.div(length), y: self.y.div(length), z: self.z.div(length) }
    }

    /// Reflect this vector about a normal.
    pub fn reflect(self, normal: &Vector3) -> (r: Vector3)
        ensures
            r@ == v3_reflect(self@, normal@),
    {
        self.sub(normal.scale(self.dot(normal)).scale(Fx::from_int(2)))
    }

    /// Refract this vector through a surface with the given normal and
    /// refraction ratio; the zero vector on total internal reflection.
    pub fn refract(self, normal: Vector3, eta: Fx) -> (r: Vector3)
        ensures
            r@ == v3_refract(self@, normal@, eta@),
    {
        let dot_ni = self.dot(&normal);
        let one = Fx::from_int(1);
        let k = one.sub(eta.mul(eta).mul(one.sub(dot_ni)).mul(dot_ni));
        if k.lt(Fx::zero()) {
            Vector3::zero()
        } else {
            self.scale(eta).sub(normal.scale(eta.mul(dot_ni).add(k.sqrt())))
        }
    }
}

} // verus!
