use mathx::math::Math;
use mathx::vector2::Vector2;
use mathx::vector3::Vector3;

fn vb(x: f32) -> u32 {
    x.to_bits()
}

fn vf(u: u32) -> f32 {
    f32::from_bits(u)
}

fn v2(x: f32, y: f32) -> Vector2 {
    Vector2::new(x.to_bits(), y.to_bits())
}

fn v3(x: f32, y: f32, z: f32) -> Vector3 {
    Vector3::new(x.to_bits(), y.to_bits(), z.to_bits())
}

fn v3_close(v: Vector3, x: f32, y: f32, z: f32, eps: f32) {
    let (gx, gy, gz) = (vf(v.x), vf(v.y), vf(v.z));
    assert!(
        (gx - x).abs() <= eps && (gy - y).abs() <= eps && (gz - z).abs() <= eps,
        "expected ({x}, {y}, {z}), got ({gx}, {gy}, {gz})"
    );
}

fn v2_close(v: Vector2, x: f32, y: f32, eps: f32) {
    let (gx, gy) = (vf(v.x), vf(v.y));
    assert!(
        (gx - x).abs() <= eps && (gy - y).abs() <= eps,
        "expected ({x}, {y}), got ({gx}, {gy})"
    );
}

#[test]
fn vector2_constructors_fill_the_components() {
    let v = v2(1.2, 3.45);
    assert_eq!(1.2, vf(v.x()));
    assert_eq!(3.45, vf(v.y()));
    assert_eq!(0.0, vf(Vector2::zero().x()));
    assert_eq!(-1.0, vf(Vector2::left().x()));
    assert_eq!(1.0, vf(Vector2::right().x()));
    assert_eq!(1.0, vf(Vector2::up().y()));
    assert_eq!(-1.0, vf(Vector2::down().y()));
    assert_eq!(1.0, vf(Vector2::one().x()));
    let v = Vector2::from_vector3(v3(1.2, 3.45, 6.789));
    assert_eq!(1.2, vf(v.x()));
    assert_eq!(3.45, vf(v.y()));
}

#[test]
fn vector2_headings_round_trip() {
    let v = Vector2::from_heading(Math::PI_OVER_4);
    v2_close(v, 0.7071068, 0.7071068, 0.0001);
    let v = Vector2::from_heading(vb(4.0));
    v2_close(v, -0.653643620864, -0.756802495308, 0.0001);
    let v = Vector2::from_heading_deg(vb(45.0));
    v2_close(v, 0.7071068, 0.7071068, 0.0001);
    let heading = Vector2::one().heading();
    assert!((vf(heading) - vf(Math::PI_OVER_4)).abs() < 0.0001);
    let mut v = Vector2::zero();
    v.set_heading(Math::PI_OVER_4);
    v2_close(v, 0.70710678118, 0.70710678118, 0.0001);
}

#[test]
fn vector2_magnitudes_and_dot() {
    let a = v2(-1.0, 2.0);
    assert_eq!(2.236068, vf(a.magnitude()));
    assert_eq!(5.0, vf(a.square_magnitude()));
    assert_eq!(1.35, vf(Vector2::one().dot(v2(0.25, 1.1))));
    assert_eq!(0.0, vf(Vector2::right().dot(v2(0.0, 2.0))));
    assert_eq!(1.0, vf(Vector2::right().dot(Vector2::right())));
    assert_eq!(-1.0, vf(Vector2::right().dot(Vector2::left())));
}

#[test]
fn vector2_angles_between() {
    let a = v2(0.25, -0.5);
    let b = v2(2.0, 0.5);
    assert!((vf(a.angle_between(b)) - 1.35212751547).abs() < 0.0005);
    assert!((vf(a.angle_between_deg(b)) - 77.4712).abs() < 0.03);
    let c = v2(-2.0, 0.5);
    assert!((vf(a.signed_angle_between(c)) - -2.27942269238).abs() < 0.0005);
}

#[test]
fn vector2_moves_and_interpolates() {
    let a = v2(0.0, -10.0);
    let b = v2(1.0, -4.0);
    assert!(a.lerp_unclamped(b, vb(0.7)) == v2(0.7, -5.8));
    let a = v2(0.25, -0.5);
    let b = v2(2.0, 0.5);
    assert!(a.move_towards(b, vb(0.2)) == v2(0.42364863, -0.4007722));
    assert!(a.move_towards(b, vb(20.0)) == b);
    assert_eq!(2.0155644, vf(a.distance(b)));
}

#[test]
fn vector2_normalize_gives_unit_vectors() {
    let v = Vector2::one().normalize();
    v2_close(v, 0.70710678118, 0.70710678118, 0.0001);
    let v = v2(-0.1, 1.0).normalize();
    v2_close(v, -0.09950372, 0.99503714, 0.0001);
    for &(x, y) in [(3.0f32, 4.0f32), (-2.5, 0.1), (0.0, 7.0)].iter() {
        let m = vf(v2(x, y).normalize().magnitude());
        assert!((m - 1.0).abs() < 0.0001, "magnitude {m}");
    }
}

#[test]
fn vector2_normalize_of_zero_is_zero() {
    let z = Vector2::zero().normalize();
    assert_eq!(0u32, z.x);
    assert_eq!(0u32, z.y);
}

#[test]
fn vector2_projections_and_reflections() {
    let a = v2(1.0, 2.0);
    let b = v2(3.0, 4.0);
    v2_close(a.project(b), 1.32, 1.76, 0.0001);
    v2_close(a.reject(b), -0.32, 0.24, 0.0001);
    let direction = v2(1.0, 0.0);
    let normal = v2(1.0, 1.0);
    assert!(direction.reflect(normal) == v2(-1.0, -2.0));
    let vector = v2(1.0, 2.0);
    assert_eq!(0.0, vf(vector.dot(vector.perpendicular())));
    assert!(v2(0.25, -0.5).scale(v2(2.0, 0.5)) == v2(0.5, -0.25));
}

#[test]
fn vector2_arithmetic_is_componentwise() {
    let a = v2(1.0, 2.0);
    let b = v2(10.0, -0.5);
    assert!(a.add_other(b) == v2(11.0, 1.5));
    assert!(a.subtract_other(b) == v2(-9.0, 2.5));
    assert!(a.multiply_scalar(vb(2.0)) == v2(2.0, 4.0));
    assert!(a.divide_scalar(vb(2.0)) == v2(0.5, 1.0));
    assert!(a.divide_scalar(vb(0.0)) == Vector2::zero());
    assert!(a.negate() == v2(-1.0, -2.0));
    assert!(a.reciprocal_scalar(vb(2.0)) == v2(2.0, 1.0));
    let mut c = a;
    c.add_assign_other(b);
    assert!(c == v2(11.0, 1.5));
    let v3r = a.add_vector3(v3(1.0, 1.0, 5.0));
    v3_close(v3r, 2.0, 3.0, 5.0, 0.0);
}

#[test]
fn vector3_constructors_fill_the_components() {
    let v = v3(1.2, 3.45, 6.789);
    assert_eq!(1.2, vf(v.x()));
    assert_eq!(3.45, vf(v.y()));
    assert_eq!(6.789, vf(v.z()));
    assert_eq!(1.0, vf(Vector3::forward().z()));
    assert_eq!(-1.0, vf(Vector3::back().z()));
    assert_eq!(1.0, vf(Vector3::up().y()));
    let v = Vector3::from_vector2(v2(1.2, 3.45));
    assert_eq!(0.0, vf(v.z()));
}

#[test]
fn vector3_from_angles_builds_unit_directions() {
    let v = Vector3::from_angles(Math::PI_OVER_4, Math::PI_OVER_4);
    v3_close(v, 0.5, 0.5, 0.7071068, 0.0001);
    let m = vf(v.magnitude());
    assert!((m - 1.0).abs() < 0.0001);
}

#[test]
fn vector3_cross_products_follow_the_right_hand() {
    let r = v3(1.0, 2.0, 3.0).cross(v3(4.0, 5.0, 6.0));
    v3_close(r, -3.0, 6.0, -3.0, 0.0);
}

#[test]
fn vector3_cross_is_anti_commutative() {
    let samples = [
        (v3(1.0, 2.0, 3.0), v3(4.0, 5.0, 6.0)),
        (v3(-1.5, 0.25, 9.0), v3(0.0, -3.0, 2.0)),
        (v3(0.0, 0.0, 0.0), v3(1.0, 1.0, 1.0)),
    ];
    for &(a, b) in samples.iter() {
        let ab = a.cross(b);
        let ba = b.cross(a).negate();
        assert!(ab == ba, "cross anti-commutativity");
        let aa = a.cross(a);
        assert!(aa == Vector3::zero(), "self cross is zero");
        assert_eq!(0u32, aa.x & 0x7FFF_FFFF);
        assert_eq!(0u32, aa.y & 0x7FFF_FFFF);
        assert_eq!(0u32, aa.z & 0x7FFF_FFFF);
    }
}

#[test]
fn vector3_magnitude_dot_and_distance() {
    let a = v3(-1.0, 2.0, 2.0);
    assert_eq!(3.0, vf(a.magnitude()));
    assert_eq!(9.0, vf(a.square_magnitude()));
    assert_eq!(12.0, vf(v3(1.0, 2.0, 3.0).dot(v3(4.0, 1.0, 2.0))));
    assert!((vf(v3(0.25, -0.5, 0.0).distance(v3(2.0, 0.5, 0.0))) - 2.0155644).abs() < 0.0001);
}

#[test]
fn vector3_normalize_gives_unit_vectors() {
    for &(x, y, z) in [(1.0f32, 3.0f32, 4.0f32), (-2.0, 0.5, 0.25), (0.0, 0.0, 9.0)].iter() {
        let m = vf(v3(x, y, z).normalize().magnitude());
        assert!((m - 1.0).abs() < 0.0001, "magnitude {m}");
    }
    let z = Vector3::zero().normalize();
    assert_eq!(0u32, z.x);
    assert_eq!(0u32, z.y);
    assert_eq!(0u32, z.z);
}

#[test]
fn vector3_slerp_matches_the_reference_value() {
    let a = v3(1.0, 3.0, 4.0);
    let b = v3(4.0, 6.0, 7.0);
    let r = a.slerp(b, vb(0.7));
    v3_close(r, 2.903773, 5.117129, 6.223807, 0.0001);
}

#[test]
fn vector3_slerp_endpoints_stay_put() {
    let a = v3(1.0, 3.0, 4.0);
    let b = v3(4.0, 6.0, 7.0);
    let r0 = a.slerp(b, vb(0.0));
    v3_close(r0, 1.0, 3.0, 4.0, 0.001);
    let r1 = a.slerp(b, vb(1.0));
    v3_close(r1, 4.0, 6.0, 7.0, 0.001);
}

#[test]
fn vector3_moves_and_interpolates() {
    let a = v3(0.0, -10.0, 1.0);
    let b = v3(1.0, -4.0, 3.0);
    assert!(a.lerp_unclamped(b, vb(0.5)) == v3(0.5, -7.0, 2.0));
    let a = v3(0.25, -0.5, 0.0);
    let b = v3(2.0, 0.5, 0.0);
    assert!(a.move_towards(b, vb(20.0)) == b);
    assert!(a.move_towards(b, vb(0.0)) != b);
}

#[test]
fn vector3_projections_and_reflections() {
    let a = v3(1.0, 2.0, 3.0);
    let b = v3(3.0, 4.0, 5.0);
    let p = a.project(b);
    v3_close(p, 1.56, 2.08, 2.6, 0.0001);
    let rej = a.reject(b);
    v3_close(rej, -0.56, -0.08, 0.4, 0.0001);
    let reflected = v3(1.0, 0.0, 0.0).reflect(v3(1.0, 1.0, 0.0));
    v3_close(reflected, -1.0, -2.0, 0.0, 0.0001);
    assert!(v3(0.25, -0.5, 2.0).scale(v3(2.0, 0.5, 0.5)) == v3(0.5, -0.25, 1.0));
}

#[test]
fn vector3_smooth_damp_moves_toward_the_target() {
    let from = v3(0.0, 0.0, 0.0);
    let target = v3(10.0, 0.0, 0.0);
    let velocity = v3(0.0, 0.0, 0.0);
    let (p, v) = from.smooth_damp(target, velocity, vb(0.5), vb(100.0), vb(0.1));
    let px = vf(p.x);
    assert!(px > 0.0 && px < 10.0, "position {px}");
    assert!(vf(v.x) > 0.0, "velocity moves forward");
    assert_eq!(0.0, vf(p.y));
    assert_eq!(0.0, vf(p.z));
}

#[test]
fn vector3_rotate_towards_turns_and_ramps() {
    let from = v3(1.0, 0.0, 0.0);
    let target = v3(0.0, 1.0, 0.0);
    let r = from.rotate_towards(target, vb(10.0), vb(10.0));
    v3_close(r, 0.0, 1.0, 0.0, 0.001);
    let step = from.rotate_towards(target, vb(0.5), vb(10.0));
    let angle_left = vf(step.angle_between(target));
    assert!((angle_left - (std::f32::consts::FRAC_PI_2 - 0.5)).abs() < 0.01);
}

#[test]
fn vector3_signed_angles_carry_the_axis_sign() {
    let a = v3(1.0, 0.0, 0.0);
    let b = v3(0.0, 1.0, 0.0);
    let up_axis = v3(0.0, 0.0, 1.0);
    let down_axis = v3(0.0, 0.0, -1.0);
    assert!((vf(a.signed_angle_between(b, up_axis)) - 1.5707964).abs() < 0.001);
    assert!((vf(a.signed_angle_between(b, down_axis)) + 1.5707964).abs() < 0.001);
}
