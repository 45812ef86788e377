//! Fixed-point vectors, quaternions and 4x4 matrices.
//!
//! Every scalar is an `i64` holding thousandths of a world unit, so `1000`
//! is one unit. Products are computed exactly in wide arithmetic and then
//! divided by `FX_ONE`, truncating toward zero. Positions and other world
//! coordinates are kept within `FX_LIMIT` so that a four-term matrix dot
//! product can never overflow an `i64`.
use vstd::prelude::*;

verus! {

/// One world unit in fixed-point thousandths.
pub const FX_ONE: i64 = 1000;

/// Largest magnitude a world coordinate may take.
pub const FX_LIMIT: i64 = 10_000_000_000;

/// Largest magnitude of one fixed-point product of two coordinates.
pub const FX_PROD_LIMIT: i64 = 100_000_000_000_000_000;

/// The scalar is a world coordinate within range.
pub open spec fn fx_bounded(a: int) -> bool {
    -FX_LIMIT <= a <= FX_LIMIT
}

/// The scalar is within the range of a single fixed-point product.
pub open spec fn fx_prod_bounded(a: int) -> bool {
    -FX_PROD_LIMIT <= a <= FX_PROD_LIMIT
}

/// Fixed-point product: the exact integer product scaled down by `FX_ONE`,
/// truncated toward zero.
pub open spec fn fx_mul_s(a: int, b: int) -> int {
    if a * b >= 0 {
        (a * b) / (FX_ONE as int)
    } else {
        -((-(a * b)) / (FX_ONE as int))
    }
}

/// The sum clamped into the world-coordinate range.
pub open spec fn fx_clamp_s(a: int) -> int {
    if a > FX_LIMIT {
        FX_LIMIT as int
    } else if a < -FX_LIMIT {
        -FX_LIMIT as int
    } else {
        a
    }
}

/// Fixed-point multiplication of two world coordinates.
pub fn fx_mul(a: i64, b: i64) -> (r: i64)
    requires
        fx_bounded(a as int),
        fx_bounded(b as int),
    ensures
        r as int == fx_mul_s(a as int, b as int),
        fx_prod_bounded(r as int),
{
    let neg: bool = (a < 0) != (b < 0);
    let ma: u64 = if a < 0 {
        (-a) as u64
    } else {
        a as u64
    };
    let mb: u64 = if b < 0 {
        (-b) as u64
    } else {
        b as u64
    };
    proof {
        assert(ma as int * mb as int <= FX_LIMIT as int * FX_LIMIT as int) by (nonlinear_arith)
            requires
                0 <= ma as int <= FX_LIMIT as int,
                0 <= mb as int <= FX_LIMIT as int,
        ;
    }
    let p: u128 = (ma as u128) * (mb as u128);
    let q: u128 = p / (FX_ONE as u128);
    proof {
        vstd::arithmetic::div_mod::lemma_div_is_ordered(
            p as int,
            FX_LIMIT as int * FX_LIMIT as int,
            FX_ONE as int,
        );
        if neg {
            assert(a as int * b as int == -(ma as int * mb as int)) by (nonlinear_arith)
                requires
                    ((a as int) < 0 && (b as int) >= 0 && ma as int == -(a as int) && mb as int == b as int) || ((a as int) >= 0 && (b as int) < 0 && ma as int == a as int && mb as int == -(b as int)),
            ;
        } else {
            assert(a as int * b as int == ma as int * mb as int) by (nonlinear_arith)
                requires
                    ((a as int) >= 0 && (b as int) >= 0 && ma as int == a as int && mb as int == b as int) || ((a as int) < 0 && (b as int) < 0 && ma as int == -(a as int) && mb as int == -(b as int)),
            ;
        }
    }
    if neg {
        -(q as i64)
    } else {
        q as i64
    }
}

/// Addition of a world coordinate and a product term, clamped back into the
/// world-coordinate range.
pub fn fx_sat_add(a: i64, b: i64) -> (r: i64)
    requires
        fx_bounded(a as int),
        fx_prod_bounded(b as int),
    ensures
        r as int == fx_clamp_s(a as int + b as int),
        fx_bounded(r as int),
{
    let s: i64 = a + b;
    if s > FX_LIMIT {
        FX_LIMIT
    } else if s < -FX_LIMIT {
        -FX_LIMIT
    } else {
        s
    }
}

/// Bound on the magnitude of a fixed-point product, from bounds on the
/// factors.
pub proof fn lemma_fx_mul_s_bound(a: int, b: int, ba: int, bb: int)
    requires
        -ba <= a <= ba,
        -bb <= b <= bb,
        0 <= ba,
        0 <= bb,
    ensures
        -((ba * bb) / (FX_ONE as int)) <= fx_mul_s(a, b) <= (ba * bb) / (FX_ONE as int),
        0 <= (ba * bb) / (FX_ONE as int),
{
    let p = a * b;
    assert(-(ba * bb) <= p <= ba * bb && 0 <= ba * bb) by (nonlinear_arith)
        requires
            p == a * b,
            -ba <= a <= ba,
            -bb <= b <= bb,
            0 <= ba,
            0 <= bb,
    ;
    vstd::arithmetic::div_mod::lemma_div_pos_is_pos(ba * bb, FX_ONE as int);
    if p >= 0 {
        vstd::arithmetic::div_mod::lemma_div_is_ordered(p, ba * bb, FX_ONE as int);
        vstd::arithmetic::div_mod::lemma_div_pos_is_pos(p, FX_ONE as int);
    } else {
        vstd::arithmetic::div_mod::lemma_div_is_ordered(-p, ba * bb, FX_ONE as int);
        vstd::arithmetic::div_mod::lemma_div_pos_is_pos(-p, FX_ONE as int);
    }
}

/// Multiplying by the fixed-point unit is exact.
pub proof fn lemma_fx_mul_s_one(a: int)
    ensures
        fx_mul_s(FX_ONE as int, a) == a,
        fx_mul_s(a, FX_ONE as int) == a,
{
    if a >= 0 {
        vstd::arithmetic::div_mod::lemma_div_multiples_vanish(a, FX_ONE as int);
        assert((FX_ONE as int) * a == a * (FX_ONE as int));
    } else {
        vstd::arithmetic::div_mod::lemma_div_multiples_vanish(-a, FX_ONE as int);
        assert((FX_ONE as int) * (-a) == -((FX_ONE as int) * a));
        assert((FX_ONE as int) * a == a * (FX_ONE as int));
    }
}

/// A 3-vector of fixed-point world coordinates.
#[derive(Clone, Copy, PartialEq, Eq, Structural, Debug)]
pub struct Vec3Fx {
    pub x: i64,
    pub y: i64,
    pub z: i64,
}

impl Vec3Fx {
    /// All three coordinates are within the world-coordinate range.
    pub open spec fn bounded(self) -> bool {
        &&& fx_bounded(self.x as int)
        &&& fx_bounded(self.y as int)
        &&& fx_bounded(self.z as int)
    }

    pub fn new(x: i64, y: i64, z: i64) -> (v: Vec3Fx)
        ensures
            v == (Vec3Fx { x, y, z }),
    {
        Vec3Fx { x, y, z }
    }
}

/// A quaternion in fixed point, `s` the scalar part. Orientations are unit
/// quaternions, so each component lies within one fixed-point unit.
#[derive(Clone, Copy, PartialEq, Eq, Structural, Debug)]
pub struct QuatFx {
    pub s: i64,
    pub x: i64,
    pub y: i64,
    pub z: i64,
}

/// A value clamped into the unit range of a quaternion component.
pub open spec fn q_clamp_s(a: int) -> int {
    if a > FX_ONE {
        FX_ONE as int
    } else if a < -FX_ONE {
        -FX_ONE as int
    } else {
        a
    }
}

/// The Hamilton product of two quaternions in fixed point, each component
/// clamped back into the unit range.
pub open spec fn quat_mul_s(a: QuatFx, b: QuatFx) -> QuatFx {
    QuatFx {
        s: q_clamp_s(
            fx_mul_s(a.s as int, b.s as int) - fx_mul_s(a.x as int, b.x as int) - fx_mul_s(
                a.y as int,
                b.y as int,
            ) - fx_mul_s(a.z as int, b.z as int),
        ) as i64,
        x: q_clamp_s(
            fx_mul_s(a.s as int, b.x as int) + fx_mul_s(a.x as int, b.s as int) + fx_mul_s(
                a.y as int,
                b.z as int,
            ) - fx_mul_s(a.z as int, b.y as int),
        ) as i64,
        y: q_clamp_s(
            fx_mul_s(a.s as int, b.y as int) - fx_mul_s(a.x as int, b.z as int) + fx_mul_s(
                a.y as int,
                b.s as int,
            ) + fx_mul_s(a.z as int, b.x as int),
        ) as i64,
        z: q_clamp_s(
            fx_mul_s(a.s as int, b.z as int) + fx_mul_s(a.x as int, b.y as int) - fx_mul_s(
                a.y as int,
                b.x as int,
            ) + fx_mul_s(a.z as int, b.s as int),
        ) as i64,
    }
}

impl QuatFx {
    /// Every component lies within one fixed-point unit.
    pub open spec fn unit_bounded(self) -> bool {
        &&& -FX_ONE <= self.s <= FX_ONE
        &&& -FX_ONE <= self.x <= FX_ONE
        &&& -FX_ONE <= self.y <= FX_ONE
        &&& -FX_ONE <= self.z <= FX_ONE
    }

    /// The identity orientation.
    pub fn identity() -> (q: QuatFx)
        ensures
            q == (QuatFx { s: FX_ONE, x: 0, y: 0, z: 0 }),
            q.unit_bounded(),
    {
        QuatFx { s: FX_ONE, x: 0, y: 0, z: 0 }
    }
}

fn q_clamp(a: i64) -> (r: i64)
    ensures
        r as int == q_clamp_s(a as int),
{
    if a > FX_ONE {
        FX_ONE
    } else if a < -FX_ONE {
        -FX_ONE
    } else {
        a
    }
}

/// Composition of two orientations, as the rotation system composes an
/// angular velocity onto a rotation each frame.
pub fn quat_mul(a: QuatFx, b: QuatFx) -> (r: QuatFx)
    requires
        a.unit_bounded(),
        b.unit_bounded(),
    ensures
        r == quat_mul_s(a, b),
        r.unit_bounded(),
{
    let ss: i64 = fx_mul(a.s, b.s);
    let xx: i64 = fx_mul(a.x, b.x);
    let yy: i64 = fx_mul(a.y, b.y);
    let zz: i64 = fx_mul(a.z, b.z);
    let sx: i64 = fx_mul(a.s, b.x);
    let xs: i64 = fx_mul(a.x, b.s);
    let yz: i64 = fx_mul(a.y, b.z);
    let zy: i64 = fx_mul(a.z, b.y);
    let sy: i64 = fx_mul(a.s, b.y);
    let xz: i64 = fx_mul(a.x, b.z);
    let ys: i64 = fx_mul(a.y, b.s);
    let zx: i64 = fx_mul(a.z, b.x);
    let sz: i64 = fx_mul(a.s, b.z);
    let xy: i64 = fx_mul(a.x, b.y);
    let yx: i64 = fx_mul(a.y, b.x);
    let zs: i64 = fx_mul(a.z, b.s);
    QuatFx {
        s: q_clamp(ss - xx - yy - zz),
        x: q_clamp(sx + xs + yz - zy),
        y: q_clamp(sy - xz + ys + zx),
        z: q_clamp(sz + xy - yx + zs),
    }
}

/// The mathematical value of a 4x4 fixed-point matrix, row major.
pub ghost struct Mat4V {
    pub m00: int,
    pub m01: int,
    pub m02: int,
    pub m03: int,
    pub m10: int,
    pub m11: int,
    pub m12: int,
    pub m13: int,
    pub m20: int,
    pub m21: int,
    pub m22: int,
    pub m23: int,
    pub m30: int,
    pub m31: int,
    pub m32: int,
    pub m33: int,
}

impl Mat4V {
    /// Every entry has magnitude at most `b`.
    pub open spec fn bounded_by(self, b: int) -> bool {
        &&& -b <= self.m00 <= b
        &&& -b <= self.m01 <= b
        &&& -b <= self.m02 <= b
        &&& -b <= self.m03 <= b
        &&& -b <= self.m10 <= b
        &&& -b <= self.m11 <= b
        &&& -b <= self.m12 <= b
        &&& -b <= self.m13 <= b
        &&& -b <= self.m20 <= b
        &&& -b <= self.m21 <= b
        &&& -b <= self.m22 <= b
        &&& -b <= self.m23 <= b
        &&& -b <= self.m30 <= b
        &&& -b <= self.m31 <= b
        &&& -b <= self.m32 <= b
        &&& -b <= self.m33 <= b
    }
}

/// A four-term fixed-point dot product.
pub open spec fn dot4_s(a0: int, a1: int, a2: int, a3: int, b0: int, b1: int, b2: int, b3: int) -> int {
    fx_mul_s(a0, b0) + fx_mul_s(a1, b1) + fx_mul_s(a2, b2) + fx_mul_s(a3, b3)
}

/// The fixed-point matrix product, row major: entry (i, j) is the dot
/// product of row i of `a` with column j of `b`.
pub open spec fn mat_mul_v(a: Mat4V, b: Mat4V) -> Mat4V {
    Mat4V {
        m00: dot4_s(a.m00, a.m01, a.m02, a.m03, b.m00, b.m10, b.m20, b.m30),
        m01: dot4_s(a.m00, a.m01, a.m02, a.m03, b.m01, b.m11, b.m21, b.m31),
        m02: dot4_s(a.m00, a.m01, a.m02, a.m03, b.m02, b.m12, b.m22, b.m32),
        m03: dot4_s(a.m00, a.m01, a.m02, a.m03, b.m03, b.m13, b.m23, b.m33),
        m10: dot4_s(a.m10, a.m11, a.m12, a.m13, b.m00, b.m10, b.m20, b.m30),
        m11: dot4_s(a.m10, a.m11, a.m12, a.m13, b.m01, b.m11, b.m21, b.m31),
        m12: dot4_s(a.m10, a.m11, a.m12, a.m13, b.m02, b.m12, b.m22, b.m32),
        m13: dot4_s(a.m10, a.m11, a.m12, a.m13, b.m03, b.m13, b.m23, b.m33),
        m20: dot4_s(a.m20, a.m21, a.m22, a.m23, b.m00, b.m10, b.m20, b.m30),
        m21: dot4_s(a.m20, a.m21, a.m22, a.m23, b.m01, b.m11, b.m21, b.m31),
        m22: dot4_s(a.m20, a.m21, a.m22, a.m23, b.m02, b.m12, b.m22, b.m32),
        m23: dot4_s(a.m20, a.m21, a.m22, a.m23, b.m03, b.m13, b.m23, b.m33),
        m30: dot4_s(a.m30, a.m31, a.m32, a.m33, b.m00, b.m10, b.m20, b.m30),
        m31: dot4_s(a.m30, a.m31, a.m32, a.m33, b.m01, b.m11, b.m21, b.m31),
        m32: dot4_s(a.m30, a.m31, a.m32, a.m33, b.m02, b.m12, b.m22, b.m32),
        m33: dot4_s(a.m30, a.m31, a.m32, a.m33, b.m03, b.m13, b.m23, b.m33),
    }
}

/// The identity transform.
pub open spec fn identity_v() -> Mat4V {
    Mat4V {
        m00: FX_ONE as int, m01: 0, m02: 0, m03: 0,
        m10: 0, m11: FX_ONE as int, m12: 0, m13: 0,
        m20: 0, m21: 0, m22: FX_ONE as int, m23: 0,
        m30: 0, m31: 0, m32: 0, m33: FX_ONE as int,
    }
}

/// The translation matrix moving the origin to `p`.
pub open spec fn translation_v(p: Vec3Fx) -> Mat4V {
    Mat4V {
        m00: FX_ONE as int, m01: 0, m02: 0, m03: p.x as int,
        m10: 0, m11: FX_ONE as int, m12: 0, m13: p.y as int,
        m20: 0, m21: 0, m22: FX_ONE as int, m23: p.z as int,
        m30: 0, m31: 0, m32: 0, m33: FX_ONE as int,
    }
}

/// The uniform scale matrix with fixed-point factor `sfx`.
pub open spec fn scale_v(sfx: int) -> Mat4V {
    Mat4V {
        m00: sfx, m01: 0, m02: 0, m03: 0,
        m10: 0, m11: sfx, m12: 0, m13: 0,
        m20: 0, m21: 0, m22: sfx, m23: 0,
        m30: 0, m31: 0, m32: 0, m33: FX_ONE as int,
    }
}

/// The rotation matrix of a unit quaternion, in fixed point.
pub open spec fn rotation_v(q: QuatFx) -> Mat4V {
    Mat4V {
        m00: FX_ONE as int - 2 * fx_mul_s(q.y as int, q.y as int) - 2 * fx_mul_s(q.z as int, q.z as int),
        m01: 2 * fx_mul_s(q.x as int, q.y as int) - 2 * fx_mul_s(q.s as int, q.z as int),
        m02: 2 * fx_mul_s(q.x as int, q.z as int) + 2 * fx_mul_s(q.s as int, q.y as int),
        m03: 0,
        m10: 2 * fx_mul_s(q.x as int, q.y as int) + 2 * fx_mul_s(q.s as int, q.z as int),
        m11: FX_ONE as int - 2 * fx_mul_s(q.x as int, q.x as int) - 2 * fx_mul_s(q.z as int, q.z as int),
        m12: 2 * fx_mul_s(q.y as int, q.z as int) - 2 * fx_mul_s(q.s as int, q.x as int),
        m13: 0,
        m20: 2 * fx_mul_s(q.x as int, q.z as int) - 2 * fx_mul_s(q.s as int, q.y as int),
        m21: 2 * fx_mul_s(q.y as int, q.z as int) + 2 * fx_mul_s(q.s as int, q.x as int),
        m22: FX_ONE as int - 2 * fx_mul_s(q.x as int, q.x as int) - 2 * fx_mul_s(q.y as int, q.y as int),
        m23: 0,
        m30: 0, m31: 0, m32: 0, m33: FX_ONE as int,
    }
}

/// The world transform of one instance: translate after rotate after scale,
/// so the matrix is `Translation(p) * Rotation(q) * Scale(s)`, applied right
/// to left to a model-space point.
pub open spec fn model_matrix_v(p: Vec3Fx, q: QuatFx, s: u8) -> Mat4V {
    mat_mul_v(translation_v(p), mat_mul_v(rotation_v(q), scale_v(s as int * (FX_ONE as int))))
}

/// A 4x4 fixed-point transform matrix, row major.
#[derive(Clone, Copy, PartialEq, Eq, Structural, Debug)]
pub struct Mat4Fx {
    pub m00: i64,
    pub m01: i64,
    pub m02: i64,
    pub m03: i64,
    pub m10: i64,
    pub m11: i64,
    pub m12: i64,
    pub m13: i64,
    pub m20: i64,
    pub m21: i64,
    pub m22: i64,
    pub m23: i64,
    pub m30: i64,
    pub m31: i64,
    pub m32: i64,
    pub m33: i64,
}

impl View for Mat4Fx {
    type V = Mat4V;

    open spec fn view(&self) -> Mat4V {
        Mat4V {
            m00: self.m00 as int,
            m01: self.m01 as int,
            m02: self.m02 as int,
            m03: self.m03 as int,
            m10: self.m10 as int,
            m11: self.m11 as int,
            m12: self.m12 as int,
            m13: self.m13 as int,
            m20: self.m20 as int,
            m21: self.m21 as int,
            m22: self.m22 as int,
            m23: self.m23 as int,
            m30: self.m30 as int,
            m31: self.m31 as int,
            m32: self.m32 as int,
            m33: self.m33 as int,
        }
    }
}

impl Mat4Fx {
    /// The identity transform.
    pub fn identity() -> (m: Mat4Fx)
        ensures
            m@ == identity_v(),
            m@.bounded_by(FX_LIMIT as int),
    {
        Mat4Fx {
            m00: FX_ONE, m01: 0, m02: 0, m03: 0,
            m10: 0, m11: FX_ONE, m12: 0, m13: 0,
            m20: 0, m21: 0, m22: FX_ONE, m23: 0,
            m30: 0, m31: 0, m32: 0, m33: FX_ONE,
        }
    }
}

/// A four-term fixed-point dot product of world coordinates.
pub fn dot4(a0: i64, a1: i64, a2: i64, a3: i64, b0: i64, b1: i64, b2: i64, b3: i64) -> (r: i64)
    requires
        fx_bounded(a0 as int),
        fx_bounded(a1 as int),
        fx_bounded(a2 as int),
        fx_bounded(a3 as int),
        fx_bounded(b0 as int),
        fx_bounded(b1 as int),
        fx_bounded(b2 as int),
        fx_bounded(b3 as int),
    ensures
        r as int == dot4_s(a0 as int, a1 as int, a2 as int, a3 as int, b0 as int, b1 as int, b2 as int, b3 as int),
        -4 * (FX_PROD_LIMIT as int) <= r as int <= 4 * (FX_PROD_LIMIT as int),
{
    fx_mul(a0, b0) + fx_mul(a1, b1) + fx_mul(a2, b2) + fx_mul(a3, b3)
}

/// The fixed-point matrix product.
pub fn mat_mul(a: &Mat4Fx, b: &Mat4Fx) -> (r: Mat4Fx)
    requires
        a@.bounded_by(FX_LIMIT as int),
        b@.bounded_by(FX_LIMIT as int),
    ensures
        r@ == mat_mul_v(a@, b@),
        r@.bounded_by(4 * (FX_PROD_LIMIT as int)),
{
    Mat4Fx {
        m00: dot4(a.m00, a.m01, a.m02, a.m03, b.m00, b.m10, b.m20, b.m30),
        m01: dot4(a.m00, a.m01, a.m02, a.m03, b.m01, b.m11, b.m21, b.m31),
        m02: dot4(a.m00, a.m01, a.m02, a.m03, b.m02, b.m12, b.m22, b.m32),
        m03: dot4(a.m00, a.m01, a.m02, a.m03, b.m03, b.m13, b.m23, b.m33),
        m10: dot4(a.m10, a.m11, a.m12, a.m13, b.m00, b.m10, b.m20, b.m30),
        m11: dot4(a.m10, a.m11, a.m12, a.m13, b.m01, b.m11, b.m21, b.m31),
        m12: dot4(a.m10, a.m11, a.m12, a.m13, b.m02, b.m12, b.m22, b.m32),
        m13: dot4(a.m10, a.m11, a.m12, a.m13, b.m03, b.m13, b.m23, b.m33),
        m20: dot4(a.m20, a.m21, a.m22, a.m23, b.m00, b.m10, b.m20, b.m30),
        m21: dot4(a.m20, a.m21, a.m22, a.m23, b.m01, b.m11, b.m21, b.m31),
        m22: dot4(a.m20, a.m21, a.m22, a.m23, b.m02, b.m12, b.m22, b.m32),
        m23: dot4(a.m20, a.m21, a.m22, a.m23, b.m03, b.m13, b.m23, b.m33),
        m30: dot4(a.m30, a.m31, a.m32, a.m33, b.m00, b.m10, b.m20, b.m30),
        m31: dot4(a.m30, a.m31, a.m32, a.m33, b.m01, b.m11, b.m21, b.m31),
        m32: dot4(a.m30, a.m31, a.m32, a.m33, b.m02, b.m12, b.m22, b.m32),
        m33: dot4(a.m30, a.m31, a.m32, a.m33, b.m03, b.m13, b.m23, b.m33),
    }
}

/// Bound on the magnitude of a four-term fixed-point dot product, from
/// bounds on its operands.
pub proof fn lemma_dot4_s_bound(a0: int, a1: int, a2: int, a3: int, b0: int, b1: int, b2: int, b3: int, ba: int, bb: int)
    requires
        -ba <= a0 <= ba,
        -ba <= a1 <= ba,
        -ba <= a2 <= ba,
        -ba <= a3 <= ba,
        -bb <= b0 <= bb,
        -bb <= b1 <= bb,
        -bb <= b2 <= bb,
        -bb <= b3 <= bb,
        0 <= ba,
        0 <= bb,
    ensures
        -4 * ((ba * bb) / (FX_ONE as int)) <= dot4_s(a0, a1, a2, a3, b0, b1, b2, b3) <= 4 * ((ba * bb) / (FX_ONE as int)),
{
    lemma_fx_mul_s_bound(a0, b0, ba, bb);
    lemma_fx_mul_s_bound(a1, b1, ba, bb);
    lemma_fx_mul_s_bound(a2, b2, ba, bb);
    lemma_fx_mul_s_bound(a3, b3, ba, bb);
}

/// Bound on every entry of a fixed-point matrix product, from bounds on the
/// entries of its operands.
pub proof fn lemma_mat_mul_v_bounded(a: Mat4V, b: Mat4V, ba: int, bb: int)
    requires
        a.bounded_by(ba),
        b.bounded_by(bb),
        0 <= ba,
        0 <= bb,
    ensures
        mat_mul_v(a, b).bounded_by(4 * ((ba * bb) / (FX_ONE as int))),
{
    lemma_dot4_s_bound(a.m00, a.m01, a.m02, a.m03, b.m00, b.m10, b.m20, b.m30, ba, bb);
    lemma_dot4_s_bound(a.m00, a.m01, a.m02, a.m03, b.m01, b.m11, b.m21, b.m31, ba, bb);
    lemma_dot4_s_bound(a.m00, a.m01, a.m02, a.m03, b.m02, b.m12, b.m22, b.m32, ba, bb);
    lemma_dot4_s_bound(a.m00, a.m01, a.m02, a.m03, b.m03, b.m13, b.m23, b.m33, ba, bb);
    lemma_dot4_s_bound(a.m10, a.m11, a.m12, a.m13, b.m00, b.m10, b.m20, b.m30, ba, bb);
    lemma_dot4_s_bound(a.m10, a.m11, a.m12, a.m13, b.m01, b.m11, b.m21, b.m31, ba, bb);
    lemma_dot4_s_bound(a.m10, a.m11, a.m12, a.m13, b.m02, b.m12, b.m22, b.m32, ba, bb);
    lemma_dot4_s_bound(a.m10, a.m11, a.m12, a.m13, b.m03, b.m13, b.m23, b.m33, ba, bb);
    lemma_dot4_s_bound(a.m20, a.m21, a.m22, a.m23, b.m00, b.m10, b.m20, b.m30, ba, bb);
    lemma_dot4_s_bound(a.m20, a.m21, a.m22, a.m23, b.m01, b.m11, b.m21, b.m31, ba, bb);
    lemma_dot4_s_bound(a.m20, a.m21, a.m22, a.m23, b.m02, b.m12, b.m22, b.m32, ba, bb);
    lemma_dot4_s_bound(a.m20, a.m21, a.m22, a.m23, b.m03, b.m13, b.m23, b.m33, ba, bb);
    lemma_dot4_s_bound(a.m30, a.m31, a.m32, a.m33, b.m00, b.m10, b.m20, b.m30, ba, bb);
    lemma_dot4_s_bound(a.m30, a.m31, a.m32, a.m33, b.m01, b.m11, b.m21, b.m31, ba, bb);
    lemma_dot4_s_bound(a.m30, a.m31, a.m32, a.m33, b.m02, b.m12, b.m22, b.m32, ba, bb);
    lemma_dot4_s_bound(a.m30, a.m31, a.m32, a.m33, b.m03, b.m13, b.m23, b.m33, ba, bb);
}

/// A product with zero is zero.
pub proof fn lemma_fx_mul_s_zero(a: int)
    ensures
        fx_mul_s(a, 0) == 0,
        fx_mul_s(0, a) == 0,
{
    vstd::arithmetic::div_mod::lemma_div_of0(FX_ONE as int);
}

/// The rotation matrix of a unit quaternion has entries within five
/// fixed-point units.
pub proof fn lemma_rotation_v_bounded(q: QuatFx)
    requires
        q.unit_bounded(),
    ensures
        rotation_v(q).bounded_by(5 * (FX_ONE as int)),
{
    assert(((FX_ONE as int) * (FX_ONE as int)) / (FX_ONE as int) == FX_ONE as int) by {
        vstd::arithmetic::div_mod::lemma_div_multiples_vanish(FX_ONE as int, FX_ONE as int);
    }
    lemma_fx_mul_s_bound(q.x as int, q.x as int, FX_ONE as int, FX_ONE as int);
    lemma_fx_mul_s_bound(q.y as int, q.y as int, FX_ONE as int, FX_ONE as int);
    lemma_fx_mul_s_bound(q.z as int, q.z as int, FX_ONE as int, FX_ONE as int);
    lemma_fx_mul_s_bound(q.x as int, q.y as int, FX_ONE as int, FX_ONE as int);
    lemma_fx_mul_s_bound(q.x as int, q.z as int, FX_ONE as int, FX_ONE as int);
    lemma_fx_mul_s_bound(q.y as int, q.z as int, FX_ONE as int, FX_ONE as int);
    lemma_fx_mul_s_bound(q.s as int, q.x as int, FX_ONE as int, FX_ONE as int);
    lemma_fx_mul_s_bound(q.s as int, q.y as int, FX_ONE as int, FX_ONE as int);
    lemma_fx_mul_s_bound(q.s as int, q.z as int, FX_ONE as int, FX_ONE as int);
}

/// The translation matrix moving the origin to `p`.
pub fn translation_matrix(p: Vec3Fx) -> (m: Mat4Fx)
    requires
        p.bounded(),
    ensures
        m@ == translation_v(p),
        m@.bounded_by(FX_LIMIT as int),
{
    Mat4Fx {
        m00: FX_ONE, m01: 0, m02: 0, m03: p.x,
        m10: 0, m11: FX_ONE, m12: 0, m13: p.y,
        m20: 0, m21: 0, m22: FX_ONE, m23: p.z,
        m30: 0, m31: 0, m32: 0, m33: FX_ONE,
    }
}

/// The uniform scale matrix of a whole-unit scale factor.
pub fn scale_matrix(s: u8) -> (m: Mat4Fx)
    ensures
        m@ == scale_v(s as int * (FX_ONE as int)),
        m@.bounded_by(255 * (FX_ONE as int)),
{
    let sfx: i64 = (s as i64) * FX_ONE;
    Mat4Fx {
        m00: sfx, m01: 0, m02: 0, m03: 0,
        m10: 0, m11: sfx, m12: 0, m13: 0,
        m20: 0, m21: 0, m22: sfx, m23: 0,
        m30: 0, m31: 0, m32: 0, m33: FX_ONE,
    }
}

/// The rotation matrix of a unit quaternion.
pub fn rotation_matrix(q: QuatFx) -> (m: Mat4Fx)
    requires
        q.unit_bounded(),
    ensures
        m@ == rotation_v(q),
        m@.bounded_by(5 * (FX_ONE as int)),
{
    let xx: i64 = fx_mul(q.x, q.x);
    let yy: i64 = fx_mul(q.y, q.y);
    let zz: i64 = fx_mul(q.z, q.z);
    let xy: i64 = fx_mul(q.x, q.y);
    let xz: i64 = fx_mul(q.x, q.z);
    let yz: i64 = fx_mul(q.y, q.z);
    let sx: i64 = fx_mul(q.s, q.x);
    let sy: i64 = fx_mul(q.s, q.y);
    let sz: i64 = fx_mul(q.s, q.z);
    proof {
        assert(((FX_ONE as int) * (FX_ONE as int)) / (FX_ONE as int) == FX_ONE as int) by {
            vstd::arithmetic::div_mod::lemma_div_multiples_vanish(FX_ONE as int, FX_ONE as int);
        }
        lemma_fx_mul_s_bound(q.x as int, q.x as int, FX_ONE as int, FX_ONE as int);
        lemma_fx_mul_s_bound(q.y as int, q.y as int, FX_ONE as int, FX_ONE as int);
        lemma_fx_mul_s_bound(q.z as int, q.z as int, FX_ONE as int, FX_ONE as int);
        lemma_fx_mul_s_bound(q.x as int, q.y as int, FX_ONE as int, FX_ONE as int);
        lemma_fx_mul_s_bound(q.x as int, q.z as int, FX_ONE as int, FX_ONE as int);
        lemma_fx_mul_s_bound(q.y as int, q.z as int, FX_ONE as int, FX_ONE as int);
        lemma_fx_mul_s_bound(q.s as int, q.x as int, FX_ONE as int, FX_ONE as int);
        lemma_fx_mul_s_bound(q.s as int, q.y as int, FX_ONE as int, FX_ONE as int);
        lemma_fx_mul_s_bound(q.s as int, q.z as int, FX_ONE as int, FX_ONE as int);
    }
    Mat4Fx {
        m00: FX_ONE - 2 * yy - 2 * zz,
        m01: 2 * xy - 2 * sz,
        m02: 2 * xz + 2 * sy,
        m03: 0,
        m10: 2 * xy + 2 * sz,
        m11: FX_ONE - 2 * xx - 2 * zz,
        m12: 2 * yz - 2 * sx,
        m13: 0,
        m20: 2 * xz - 2 * sy,
        m21: 2 * yz + 2 * sx,
        m22: FX_ONE - 2 * xx - 2 * yy,
        m23: 0,
        m30: 0, m31: 0, m32: 0, m33: FX_ONE,
    }
}

/// The composed instance transform written out entry by entry: the inner
/// three-by-three block is the rotation matrix scaled by the scale factor,
/// the last column holds the position, and the bottom row is that of the
/// identity. This pins down `translate after rotate after scale` as the
/// composition order.
pub proof fn lemma_model_matrix_entries(p: Vec3Fx, q: QuatFx, s: u8)
    requires
        p.bounded(),
        q.unit_bounded(),
    ensures
        model_matrix_v(p, q, s).m00 == fx_mul_s(rotation_v(q).m00, s as int * (FX_ONE as int)),
        model_matrix_v(p, q, s).m01 == fx_mul_s(rotation_v(q).m01, s as int * (FX_ONE as int)),
        model_matrix_v(p, q, s).m02 == fx_mul_s(rotation_v(q).m02, s as int * (FX_ONE as int)),
        model_matrix_v(p, q, s).m10 == fx_mul_s(rotation_v(q).m10, s as int * (FX_ONE as int)),
        model_matrix_v(p, q, s).m11 == fx_mul_s(rotation_v(q).m11, s as int * (FX_ONE as int)),
        model_matrix_v(p, q, s).m12 == fx_mul_s(rotation_v(q).m12, s as int * (FX_ONE as int)),
        model_matrix_v(p, q, s).m20 == fx_mul_s(rotation_v(q).m20, s as int * (FX_ONE as int)),
        model_matrix_v(p, q, s).m21 == fx_mul_s(rotation_v(q).m21, s as int * (FX_ONE as int)),
        model_matrix_v(p, q, s).m22 == fx_mul_s(rotation_v(q).m22, s as int * (FX_ONE as int)),
        model_matrix_v(p, q, s).m03 == p.x as int,
        model_matrix_v(p, q, s).m13 == p.y as int,
        model_matrix_v(p, q, s).m23 == p.z as int,
        model_matrix_v(p, q, s).m30 == 0,
        model_matrix_v(p, q, s).m31 == 0,
        model_matrix_v(p, q, s).m32 == 0,
        model_matrix_v(p, q, s).m33 == FX_ONE as int,
        model_matrix_v(p, q, s).bounded_by(FX_LIMIT as int),
{
    let sfx = s as int * (FX_ONE as int);
    lemma_rotation_v_bounded(q);
    let r = rotation_v(q);
    let sm = scale_v(sfx);
    let rs = mat_mul_v(r, sm);
    lemma_fx_mul_s_zero(sfx);
    lemma_fx_mul_s_zero(p.x as int);
    lemma_fx_mul_s_zero(p.y as int);
    lemma_fx_mul_s_zero(p.z as int);
    lemma_fx_mul_s_zero(FX_ONE as int);
    lemma_fx_mul_s_one(FX_ONE as int);
    lemma_fx_mul_s_one(p.x as int);
    lemma_fx_mul_s_one(p.y as int);
    lemma_fx_mul_s_one(p.z as int);
    lemma_fx_mul_s_zero(r.m00);
    lemma_fx_mul_s_zero(r.m01);
    lemma_fx_mul_s_zero(r.m02);
    lemma_fx_mul_s_zero(r.m03);
    lemma_fx_mul_s_zero(r.m10);
    lemma_fx_mul_s_zero(r.m11);
    lemma_fx_mul_s_zero(r.m12);
    lemma_fx_mul_s_zero(r.m13);
    lemma_fx_mul_s_zero(r.m20);
    lemma_fx_mul_s_zero(r.m21);
    lemma_fx_mul_s_zero(r.m22);
    lemma_fx_mul_s_zero(r.m23);
    lemma_fx_mul_s_zero(r.m30);
    lemma_fx_mul_s_zero(r.m31);
    lemma_fx_mul_s_zero(r.m32);
    lemma_fx_mul_s_zero(r.m33);
    lemma_fx_mul_s_zero(rs.m00);
    lemma_fx_mul_s_zero(rs.m01);
    lemma_fx_mul_s_zero(rs.m02);
    lemma_fx_mul_s_zero(rs.m03);
    lemma_fx_mul_s_zero(rs.m10);
    lemma_fx_mul_s_zero(rs.m11);
    lemma_fx_mul_s_zero(rs.m12);
    lemma_fx_mul_s_zero(rs.m13);
    lemma_fx_mul_s_zero(rs.m20);
    lemma_fx_mul_s_zero(rs.m21);
    lemma_fx_mul_s_zero(rs.m22);
    lemma_fx_mul_s_zero(rs.m23);
    lemma_fx_mul_s_zero(rs.m30);
    lemma_fx_mul_s_zero(rs.m31);
    lemma_fx_mul_s_zero(rs.m32);
    lemma_fx_mul_s_zero(rs.m33);
    lemma_fx_mul_s_one(rs.m00);
    lemma_fx_mul_s_one(rs.m01);
    lemma_fx_mul_s_one(rs.m02);
    lemma_fx_mul_s_one(rs.m03);
    lemma_fx_mul_s_one(rs.m10);
    lemma_fx_mul_s_one(rs.m11);
    lemma_fx_mul_s_one(rs.m12);
    lemma_fx_mul_s_one(rs.m13);
    lemma_fx_mul_s_one(rs.m20);
    lemma_fx_mul_s_one(rs.m21);
    lemma_fx_mul_s_one(rs.m22);
    lemma_fx_mul_s_one(rs.m23);
    lemma_fx_mul_s_one(rs.m30);
    lemma_fx_mul_s_one(rs.m31);
    lemma_fx_mul_s_one(rs.m32);
    lemma_fx_mul_s_one(rs.m33);
    lemma_fx_mul_s_bound(r.m00, sfx, 5 * (FX_ONE as int), 255 * (FX_ONE as int));
    lemma_fx_mul_s_bound(r.m01, sfx, 5 * (FX_ONE as int), 255 * (FX_ONE as int));
    lemma_fx_mul_s_bound(r.m02, sfx, 5 * (FX_ONE as int), 255 * (FX_ONE as int));
    lemma_fx_mul_s_bound(r.m10, sfx, 5 * (FX_ONE as int), 255 * (FX_ONE as int));
    lemma_fx_mul_s_bound(r.m11, sfx, 5 * (FX_ONE as int), 255 * (FX_ONE as int));
    lemma_fx_mul_s_bound(r.m12, sfx, 5 * (FX_ONE as int), 255 * (FX_ONE as int));
    lemma_fx_mul_s_bound(r.m20, sfx, 5 * (FX_ONE as int), 255 * (FX_ONE as int));
    lemma_fx_mul_s_bound(r.m21, sfx, 5 * (FX_ONE as int), 255 * (FX_ONE as int));
    lemma_fx_mul_s_bound(r.m22, sfx, 5 * (FX_ONE as int), 255 * (FX_ONE as int));
    assert((5 * (FX_ONE as int)) * (255 * (FX_ONE as int)) / (FX_ONE as int) == 1275 * (
    FX_ONE as int)) by {
        vstd::arithmetic::div_mod::lemma_div_multiples_vanish(1275 * (FX_ONE as int), FX_ONE as int);
    }
}

/// The world transform of one instance: the translation to its position,
/// composed with its rotation, composed with its uniform scale.
pub fn model_matrix(p: Vec3Fx, q: QuatFx, s: u8) -> (m: Mat4Fx)
    requires
        p.bounded(),
        q.unit_bounded(),
    ensures
        m@ == model_matrix_v(p, q, s),
        m@.bounded_by(FX_LIMIT as int),
{
    let t = translation_matrix(p);
    let r4 = rotation_matrix(q);
    let sm = scale_matrix(s);
    let rs = mat_mul(&r4, &sm);
    proof {
        lemma_mat_mul_v_bounded(r4@, sm@, 5 * (FX_ONE as int), 255 * (FX_ONE as int));
        assert((5 * (FX_ONE as int)) * (255 * (FX_ONE as int)) / (FX_ONE as int) == 1275 * (
        FX_ONE as int)) by {
            vstd::arithmetic::div_mod::lemma_div_multiples_vanish(1275 * (FX_ONE as int), FX_ONE as int);
        }
        lemma_model_matrix_entries(p, q, s);
    }
    mat_mul(&t, &rs)
}

/// Application of a transform to a model-space point, taking the point's
/// fourth coordinate to be one whole unit.
pub fn transform_point(m: &Mat4Fx, v: Vec3Fx) -> (r: Vec3Fx)
    requires
        m@.bounded_by(FX_LIMIT as int),
        v.bounded(),
    ensures
        r.x as int == dot4_s(m@.m00, m@.m01, m@.m02, m@.m03, v.x as int, v.y as int, v.z as int, FX_ONE as int),
        r.y as int == dot4_s(m@.m10, m@.m11, m@.m12, m@.m13, v.x as int, v.y as int, v.z as int, FX_ONE as int),
        r.z as int == dot4_s(m@.m20, m@.m21, m@.m22, m@.m23, v.x as int, v.y as int, v.z as int, FX_ONE as int),
{
    Vec3Fx {
        x: dot4(m.m00, m.m01, m.m02, m.m03, v.x, v.y, v.z, FX_ONE),
        y: dot4(m.m10, m.m11, m.m12, m.m13, v.x, v.y, v.z, FX_ONE),
        z: dot4(m.m20, m.m21, m.m22, m.m23, v.x, v.y, v.z, FX_ONE),
    }
}

} // verus!
