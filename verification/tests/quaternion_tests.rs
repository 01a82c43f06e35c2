use mathx::math::Math;
use mathx::quaternions::Quaternion;
use mathx::vector3::Vector3;

fn qb(x: f32) -> u32 {
    x.to_bits()
}

fn qf(u: u32) -> f32 {
    f32::from_bits(u)
}

fn quat(a: f32, b: f32, c: f32, d: f32) -> Quaternion {
    Quaternion::new(a.to_bits(), b.to_bits(), c.to_bits(), d.to_bits())
}

fn qv3(x: f32, y: f32, z: f32) -> Vector3 {
    Vector3::new(x.to_bits(), y.to_bits(), z.to_bits())
}

fn quat_close(q: Quaternion, a: f32, b: f32, c: f32, d: f32, eps: f32) {
    let (ga, gb, gc, gd) = (qf(q.a), qf(q.b), qf(q.c), qf(q.d));
    assert!(
        (ga - a).abs() <= eps && (gb - b).abs() <= eps && (gc - c).abs() <= eps
            && (gd - d).abs() <= eps,
        "expected ({a}, {b}, {c}, {d}), got ({ga}, {gb}, {gc}, {gd})"
    );
}

#[test]
fn hamilton_product_matches_the_reference_value() {
    let p = quat(1.0, 2.0, 3.0, 4.0);
    let q = quat(5.0, 6.0, 7.0, 8.0);
    let r = p.multiply(q);
    quat_close(r, -60.0, 12.0, 30.0, 24.0, 0.0);
}

#[test]
fn hamilton_product_does_not_commute() {
    let p = quat(1.0, 2.0, 3.0, 4.0);
    let q = quat(5.0, 6.0, 7.0, 8.0);
    let pq = p.multiply(q);
    let qp = q.multiply(p);
    assert!(pq != qp);
}

#[test]
fn identity_times_anything_is_that_thing() {
    let q = quat(0.5, -0.25, 1.5, 2.0);
    assert!(Quaternion::identity().multiply(q) == q);
    assert!(q.multiply(Quaternion::identity()) == q);
}

#[test]
fn inverting_the_identity_gives_the_identity() {
    let inv = Quaternion::identity().invert();
    assert!(inv == Quaternion::identity());
    assert_eq!(1.0f32.to_bits(), inv.a);
    assert_eq!(0u32, inv.b & 0x7FFF_FFFF);
    assert_eq!(0u32, inv.c & 0x7FFF_FFFF);
    assert_eq!(0u32, inv.d & 0x7FFF_FFFF);
}

#[test]
fn a_quaternion_times_its_inverse_is_the_identity() {
    let samples = [
        quat(1.0, 2.0, 3.0, 4.0),
        quat(0.5, -0.25, 1.5, 2.0),
        quat(-3.0, 0.0, 0.5, 0.25),
        quat(0.0, 1.0, 0.0, 0.0),
    ];
    for &q in samples.iter() {
        let product = q.multiply(q.invert());
        let (a, b, c, d) = (qf(product.a), qf(product.b), qf(product.c), qf(product.d));
        assert!(
            (a - 1.0).abs() < 0.0001 && b.abs() < 0.0001 && c.abs() < 0.0001
                && d.abs() < 0.0001,
            "got ({a}, {b}, {c}, {d})"
        );
    }
}

#[test]
fn inverting_a_zero_quaternion_keeps_it() {
    let z = quat(0.0, 0.0, 0.0, 0.0);
    let inv = z.invert();
    assert_eq!(0u32, inv.a);
    assert_eq!(0u32, inv.b);
    assert_eq!(0u32, inv.c);
    assert_eq!(0u32, inv.d);
}

#[test]
fn conjugate_and_magnitudes() {
    let q = quat(1.0, 2.0, 3.0, 4.0);
    quat_close(q.conjugate(), 1.0, -2.0, -3.0, -4.0, 0.0);
    assert_eq!(30.0, qf(q.squared_magnitude()));
    assert!((qf(q.magnitude()) - 30.0f32.sqrt()).abs() < 0.001);
    assert_eq!(30.0, qf(q.dot(q)));
}

#[test]
fn division_undoes_multiplication_for_unit_quaternions() {
    let p = Quaternion::from_axis_angle(qv3(1.0, 2.0, 3.0), qb(0.7));
    let q = Quaternion::from_axis_angle(qv3(0.0, 0.0, 1.0), qb(1.1));
    let r = p.multiply(q).divide(q);
    let (a, b, c, d) = (qf(r.a), qf(r.b), qf(r.c), qf(r.d));
    let (pa, pb, pc, pd) = (qf(p.a), qf(p.b), qf(p.c), qf(p.d));
    assert!(
        (a - pa).abs() < 0.001 && (b - pb).abs() < 0.001 && (c - pc).abs() < 0.001
            && (d - pd).abs() < 0.001,
        "expected ({pa}, {pb}, {pc}, {pd}), got ({a}, {b}, {c}, {d})"
    );
}

#[test]
fn axis_angle_rotation_keeps_the_axis_fixed() {
    let axes = [qv3(0.0, 0.0, 1.0), qv3(1.0, 2.0, 3.0), qv3(-1.0, 0.5, 0.25)];
    for &axis in axes.iter() {
        let rotation = Quaternion::from_axis_angle(axis, qb(1.1));
        let rotated = rotation.multiply_vector3(axis);
        let (x, y, z) = (qf(rotated.x), qf(rotated.y), qf(rotated.z));
        let (ax, ay, az) = (qf(axis.x), qf(axis.y), qf(axis.z));
        assert!(
            (x - ax).abs() < 0.001 && (y - ay).abs() < 0.001 && (z - az).abs() < 0.001,
            "axis ({ax}, {ay}, {az}) moved to ({x}, {y}, {z})"
        );
    }
}

#[test]
fn axis_angle_rotation_turns_perpendicular_vectors() {
    let rotation = Quaternion::from_axis_angle(qv3(0.0, 0.0, 1.0), Math::PI_OVER_2);
    let rotated = rotation.multiply_vector3(qv3(1.0, 0.0, 0.0));
    let (x, y) = (qf(rotated.x), qf(rotated.y));
    assert!(x.abs() < 0.001, "x {x}");
    assert!((y.abs() - 1.0).abs() < 0.001, "y {y}");
}

#[test]
fn euler_angles_round_trip_away_from_gimbal_lock() {
    let angles = [
        (0.4f32, 0.0f32, 0.0f32),
        (-0.5, 0.0, 0.0),
        (0.0, 0.3, 0.0),
        (0.0, -0.6, 0.0),
        (0.0, 0.0, 0.25),
        (0.0, 0.0, -1.0),
        (0.0, 0.0, 0.0),
    ];
    for &(x, y, z) in angles.iter() {
        let e = qv3(x, y, z);
        let q = Quaternion::from_euler(e);
        let back = q.euler();
        let (bx, by, bz) = (qf(back.x), qf(back.y), qf(back.z));
        assert!(
            (bx - x).abs() < 0.001 && (by - y).abs() < 0.001 && (bz - z).abs() < 0.001,
            "({x}, {y}, {z}) came back as ({bx}, {by}, {bz})"
        );
    }
}

#[test]
fn unit_quaternions_come_from_the_factories() {
    let q = Quaternion::from_axis_angle(qv3(1.0, 2.0, 3.0), qb(0.7));
    assert!((qf(q.magnitude()) - 1.0).abs() < 0.0001);
    let q = Quaternion::from_euler(qv3(0.2, 0.3, -0.4));
    assert!((qf(q.magnitude()) - 1.0).abs() < 0.0001);
}

#[test]
fn slerp_stays_between_the_orientations() {
    let p = Quaternion::from_axis_angle(qv3(0.0, 0.0, 1.0), qb(0.0));
    let q = Quaternion::from_axis_angle(qv3(0.0, 0.0, 1.0), qb(1.0));
    let halfway = p.slerp(q, qb(0.5));
    let expected = Quaternion::from_axis_angle(qv3(0.0, 0.0, 1.0), qb(0.5));
    let (ha, hd) = (qf(halfway.a), qf(halfway.d));
    let (ea, ed) = (qf(expected.a), qf(expected.d));
    assert!(
        ((ha - ea).abs() < 0.001 && (hd - ed).abs() < 0.001) || ((ha + ea).abs() < 0.001
            && (hd + ed).abs() < 0.001),
        "expected ({ea}, {ed}), got ({ha}, {hd})"
    );
    assert!(qf(halfway.b).abs() < 0.001 && qf(halfway.c).abs() < 0.001);
}

#[test]
fn quaternion_arithmetic_is_componentwise() {
    let p = quat(1.0, 2.0, 3.0, 4.0);
    let q = quat(0.5, 0.5, -1.0, 2.0);
    quat_close(p.add_other(q), 1.5, 2.5, 2.0, 6.0, 0.0);
    quat_close(p.subtract_other(q), 0.5, 1.5, 4.0, 2.0, 0.0);
    quat_close(p.multiply_scalar(qb(2.0)), 2.0, 4.0, 6.0, 8.0, 0.0);
    quat_close(p.divide_scalar(qb(2.0)), 0.5, 1.0, 1.5, 2.0, 0.0);
    quat_close(p.divide_scalar(qb(0.0)), 0.0, 0.0, 0.0, 0.0, 0.0);
    quat_close(p.negate(), -1.0, -2.0, -3.0, -4.0, 0.0);
}

#[test]
fn rotating_a_2d_vector_spins_in_the_plane() {
    let rotation = Quaternion::from_axis_angle(qv3(0.0, 0.0, 1.0), Math::PI_OVER_2);
    let rotated = rotation.multiply_vector2(mathx::vector2::Vector2::new(qb(1.0), qb(0.0)));
    let (x, y) = (qf(rotated.x), qf(rotated.y));
    assert!(x.abs() < 0.001 && (y.abs() - 1.0).abs() < 0.001, "got ({x}, {y})");
}
