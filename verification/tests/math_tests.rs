use erlking::math::{
    fx_mul, fx_sat_add, model_matrix, quat_mul, transform_point, Mat4Fx, QuatFx, Vec3Fx, FX_LIMIT,
    FX_ONE,
};

#[test]
fn fx_mul_whole_units() {
    // 1.5 * 2.0 == 3.0
    assert_eq!(fx_mul(1500, 2000), 3000);
    // 10.0 * 0.1 == 1.0
    assert_eq!(fx_mul(10_000, 100), 1000);
}

#[test]
fn fx_mul_signs() {
    assert_eq!(fx_mul(-1500, 2000), -3000);
    assert_eq!(fx_mul(1500, -2000), -3000);
    assert_eq!(fx_mul(-1500, -2000), 3000);
    assert_eq!(fx_mul(0, 12345), 0);
}

#[test]
fn fx_mul_truncates_toward_zero() {
    // 0.001 * 0.001 rounds to zero
    assert_eq!(fx_mul(1, 1), 0);
    assert_eq!(fx_mul(-1, 1), 0);
    // 0.999 * 0.999 == 0.998001, truncated to 0.998
    assert_eq!(fx_mul(999, 999), 998);
    assert_eq!(fx_mul(-999, 999), -998);
}

#[test]
fn fx_sat_add_clamps_at_world_limit() {
    assert_eq!(fx_sat_add(0, 5000), 5000);
    assert_eq!(fx_sat_add(FX_LIMIT, 1), FX_LIMIT);
    assert_eq!(fx_sat_add(-FX_LIMIT, -1), -FX_LIMIT);
    assert_eq!(fx_sat_add(100, -300), -200);
}

#[test]
fn quat_identity_is_neutral() {
    let id = QuatFx::identity();
    let q = QuatFx { s: 0, x: 0, y: FX_ONE, z: 0 };
    assert_eq!(quat_mul(id, q), q);
    assert_eq!(quat_mul(q, id), q);
}

#[test]
fn quat_mul_half_turn() {
    // A half turn about y, squared, is a full turn: -identity.
    let q = QuatFx { s: 0, x: 0, y: FX_ONE, z: 0 };
    let r = quat_mul(q, q);
    assert_eq!(r, QuatFx { s: -FX_ONE, x: 0, y: 0, z: 0 });
}

#[test]
fn transform_composition_known_values() {
    // Position (1,0,0), identity rotation, scale 2, applied right to left
    // to the unit-cube vertex (1,1,1): scaling doubles every coordinate and
    // the translation then shifts x, so translate(rotate(scale(v))) is
    // (3,2,2).
    let p = Vec3Fx::new(FX_ONE, 0, 0);
    let q = QuatFx::identity();
    let m = model_matrix(p, q, 2);
    let v = Vec3Fx::new(FX_ONE, FX_ONE, FX_ONE);
    let out = transform_point(&m, v);
    assert_eq!(out, Vec3Fx::new(3 * FX_ONE, 2 * FX_ONE, 2 * FX_ONE));
}

#[test]
fn model_matrix_identity_case() {
    // Origin, identity rotation, scale one: the identity transform.
    let m = model_matrix(Vec3Fx::new(0, 0, 0), QuatFx::identity(), 1);
    assert_eq!(m, Mat4Fx::identity());
}

#[test]
fn model_matrix_entries() {
    // Scale sits on the diagonal, the position in the last column.
    let m = model_matrix(Vec3Fx::new(1000, -2000, 3000), QuatFx::identity(), 2);
    assert_eq!(m.m00, 2 * FX_ONE);
    assert_eq!(m.m11, 2 * FX_ONE);
    assert_eq!(m.m22, 2 * FX_ONE);
    assert_eq!(m.m03, 1000);
    assert_eq!(m.m13, -2000);
    assert_eq!(m.m23, 3000);
    assert_eq!(m.m33, FX_ONE);
    assert_eq!(m.m30, 0);
    assert_eq!(m.m01, 0);
}

#[test]
fn model_matrix_half_turn_rotation() {
    // A half turn about y negates x and z of a transformed point.
    let q = QuatFx { s: 0, x: 0, y: FX_ONE, z: 0 };
    let m = model_matrix(Vec3Fx::new(0, 0, 0), q, 1);
    let out = transform_point(&m, Vec3Fx::new(FX_ONE, FX_ONE, FX_ONE));
    assert_eq!(out, Vec3Fx::new(-FX_ONE, FX_ONE, -FX_ONE));
}
