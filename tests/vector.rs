use linmath::{Bezier2, Bezier3, Point2, Point3, Quat, Vec2, Vec3, Vec4};

#[test]
fn vectors_hold_their_components() {
    let v = Vec2::new(1.0f32, 2.0);
    assert_eq!((v.x, v.y), (1.0, 2.0));
    let v = Vec3::new(1, 2, 3);
    assert_eq!((v.x, v.y, v.z), (1, 2, 3));
    let v = Vec4::new(1, 2, 3, 4);
    assert_eq!((v.x, v.y, v.z, v.w), (1, 2, 3, 4));
}

#[test]
fn vec2_swizzles() {
    let v = Vec2::new(1, 2);
    assert_eq!(v.xx(), Vec2::new(1, 1));
    assert_eq!(v.xy(), Vec2::new(1, 2));
    assert_eq!(v.yx(), Vec2::new(2, 1));
    assert_eq!(v.yy(), Vec2::new(2, 2));
}

#[test]
fn points_and_vectors_convert() {
    let p = Point2::new(3.0f32, -4.0);
    let v = Vec2::fromPoint(p);
    assert_eq!(v, Vec2::new(3.0, -4.0));
    assert_eq!(Point2::fromVec(v), p);
    let p = Point3::new(1, 2, 3);
    let v = Vec3::fromPoint(p);
    assert_eq!(v, Vec3::new(1, 2, 3));
    assert_eq!(Point3::fromVec(Vec3::new(7, 8, 9)), Point3::new(7, 8, 9));
}

#[test]
fn quaternion_holds_its_parts() {
    let q = Quat::new(0.5f32, Vec3::new(1.0, 2.0, 3.0));
    assert_eq!(q.s, 0.5);
    assert_eq!(q.v, Vec3::new(1.0, 2.0, 3.0));
}

#[test]
fn bezier_containers_take_any_number_of_points() {
    let _empty: Bezier2<f32> = Bezier2::new(Vec::new());
    let _plane = Bezier2::new(vec![Vec2::new(0.0f32, 0.0), Vec2::new(1.0, 1.0)]);
    let _space = Bezier3::new(vec![Vec3::new(0, 0, 0); 300]);
}
