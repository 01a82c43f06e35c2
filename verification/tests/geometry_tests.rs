use mathx::collision::IRaycast;
use mathx::plane::Plane;
use mathx::ray2::Ray2;
use mathx::ray3::Ray3;
use mathx::vector2::Vector2;
use mathx::vector3::Vector3;

fn gf(u: u32) -> f32 {
    f32::from_bits(u)
}

fn gv3(x: f32, y: f32, z: f32) -> Vector3 {
    Vector3::new(x.to_bits(), y.to_bits(), z.to_bits())
}

fn gv2(x: f32, y: f32) -> Vector2 {
    Vector2::new(x.to_bits(), y.to_bits())
}

#[test]
fn planes_normalize_their_normals() {
    let plane = Plane::new(gv3(0.0, 0.0, 3.0), 2.0f32.to_bits());
    assert_eq!(1.0, gf(plane.normal().z()));
    assert_eq!(2.0, gf(plane.distance()));
    let xy = Plane::xy_plane();
    assert_eq!(1.0, gf(xy.normal().z()));
    assert_eq!(0.0, gf(xy.distance()));
}

#[test]
fn plane_point_queries_use_the_signed_distance() {
    let plane = Plane::new(gv3(0.0, 0.0, 1.0), 0.0f32.to_bits());
    assert!(plane.is_on_plane(gv3(5.0, -2.0, 0.0)));
    assert!(!plane.is_on_plane(gv3(0.0, 0.0, 1.0)));
    assert_eq!(3.0, gf(plane.distance_to_point(gv3(1.0, 1.0, 3.0))));
    assert!(plane.is_on_positive_side(gv3(0.0, 0.0, 0.5)));
    assert!(!plane.is_on_positive_side(gv3(0.0, 0.0, -0.5)));
    assert!(plane.is_on_same_side(gv3(0.0, 0.0, 1.0), gv3(9.0, 9.0, 2.0)));
    assert!(!plane.is_on_same_side(gv3(0.0, 0.0, 1.0), gv3(0.0, 0.0, -1.0)));
    let closest = plane.closest_point(gv3(1.0, 2.0, 3.0));
    assert_eq!(1.0, gf(closest.x()));
    assert_eq!(2.0, gf(closest.y()));
    assert_eq!(0.0, gf(closest.z()));
}

#[test]
fn triangulated_planes_pass_through_their_corners() {
    let a = gv3(0.0, 0.0, 1.0);
    let b = gv3(1.0, 0.0, 1.0);
    let c = gv3(0.0, 1.0, 1.0);
    let plane = Plane::new_triangulated(a, b, c);
    assert!(plane.is_on_plane(a));
    assert!(plane.is_on_plane(b));
    assert!(plane.is_on_plane(c));
}

#[test]
fn flipping_a_plane_negates_normal_and_distance() {
    let plane = Plane::new(gv3(0.0, 1.0, 0.0), 2.0f32.to_bits());
    let flipped = plane.flipped();
    assert_eq!(-1.0, gf(flipped.normal().y()));
    assert_eq!(-2.0, gf(flipped.distance()));
}

#[test]
fn rays_sample_points_along_their_direction() {
    let ray = Ray3::new(gv3(1.0, 0.0, 0.0), gv3(0.0, 2.0, 0.0));
    let p = ray.get_point(1.5f32.to_bits());
    assert_eq!(1.0, gf(p.x()));
    assert_eq!(3.0, gf(p.y()));
    let ray2 = Ray2::new(gv2(1.0, 0.0), gv2(0.0, 2.0));
    let p2 = ray2.get_point(1.5f32.to_bits());
    assert_eq!(3.0, gf(p2.y()));
}

#[test]
fn rays_find_their_closest_points() {
    let ray = Ray3::new(gv3(0.0, 0.0, 0.0), gv3(1.0, 0.0, 0.0));
    let closest = ray.closest_point(gv3(3.0, 4.0, 0.0));
    assert_eq!(3.0, gf(closest.x()));
    assert_eq!(0.0, gf(closest.y()));
    assert_eq!(4.0, gf(ray.distance(gv3(3.0, 4.0, 0.0))));
}

#[test]
fn raycasts_against_planes_report_hits() {
    let plane = Plane::new(gv3(0.0, 0.0, 1.0), 0.0f32.to_bits());
    let ray = Ray3::new(gv3(0.0, 0.0, -5.0), gv3(0.0, 0.0, 1.0));
    let info = plane.raycast(ray);
    assert!(info.is_hit());
    assert_eq!(5.0, gf(info.distance()));
    assert_eq!(0.0, gf(info.point().z()));
    assert_eq!(1.0, gf(info.normal().z()));
    let parallel = Ray3::new(gv3(0.0, 0.0, -5.0), gv3(1.0, 0.0, 0.0));
    let missed = plane.raycast(parallel);
    assert!(!missed.is_hit());
    assert_eq!(0.0, gf(missed.distance()));
    let away = Ray3::new(gv3(0.0, 0.0, -5.0), gv3(0.0, 0.0, -1.0));
    let behind = plane.raycast(away);
    assert!(!behind.is_hit());
    assert_eq!(-5.0, gf(behind.distance()));
}

#[test]
fn raycast_records_build_from_their_parts() {
    let info = mathx::collision::RaycastInfoBuilder::new().set_hit(true).set_distance(
        2.0f32.to_bits(),
    ).set_normal(gv3(0.0, 1.0, 0.0)).set_point(gv3(1.0, 2.0, 3.0)).build();
    assert!(info.is_hit());
    assert_eq!(2.0, gf(info.distance()));
    assert_eq!(1.0, gf(info.point().x()));
    assert_eq!(0.0, gf(info.uv().x()));
    let empty = mathx::collision::RaycastInfo::empty();
    assert!(!empty.is_hit());
    assert_eq!(0.0, gf(empty.distance()));
}

#[test]
fn rays_convert_between_dimensions() {
    let ray2 = Ray2::new(gv2(1.0, 2.0), gv2(3.0, 4.0));
    let ray3 = ray2.to_ray3();
    assert_eq!(0.0, gf(ray3.origin().z()));
    assert_eq!(3.0, gf(ray3.direction().x()));
    let back = ray3.to_ray2();
    assert!(back == ray2);
}
