use render_core::Vec2;
use render_core::Vec3;
use render_core::Vec4;

#[test]
fn vec2_from() {
    let v1 = Vec2::new(1.0, 2.0);
    let v2 = Vec2::from((1.0, 2.0));
    let v3: Vec2<f32> = (1.0, 2.0).into();

    assert_eq!(v1, v2);
    assert_eq!(v1, v3);
}

#[test]
fn vec3_from() {
    let v1 = Vec3::new(1.0, 2.0, 3.0);
    let v2 = Vec3::from((1.0, 2.0, 3.0));
    let v3: Vec3<f32> = (1.0, 2.0, 3.0).into();

    assert_eq!(v1, v2);
    assert_eq!(v1, v3);
}

#[test]
fn vec4_from() {
    let v1 = Vec4::new(1.0, 2.0, 3.0, 4.0);
    let v2 = Vec4::from((1.0, 2.0, 3.0, 4.0));
    let v3: Vec4<f32> = (1.0, 2.0, 3.0, 4.0).into();

    assert_eq!(v1, v2);
    assert_eq!(v1, v3);
}

#[test]
fn vec2_tuple_round_trip() {
    let v: Vec2<f32> = Vec2::from((0.25, -1.5));
    assert_eq!(v.components(), (0.25, -1.5));
    assert_eq!(Vec2::from(v.components()), v);
}

#[test]
fn vec3_tuple_round_trip() {
    let v: Vec3<f32> = Vec3::from((0.25, -1.5, 7.0));
    assert_eq!(v.components(), (0.25, -1.5, 7.0));
    assert_eq!(Vec3::from(v.components()), v);
}

#[test]
fn vec4_tuple_round_trip() {
    let v: Vec4<f32> = Vec4::from((0.25, -1.5, 7.0, 0.0));
    assert_eq!(v.components(), (0.25, -1.5, 7.0, 0.0));
    assert_eq!(Vec4::from(v.components()), v);
}

#[test]
fn vector_fields_are_declaration_ordered() {
    let v = Vec3::new(9.0_f32, 8.0, 7.0);
    assert_eq!(v.x, 9.0);
    assert_eq!(v.y, 8.0);
    assert_eq!(v.z, 7.0);
    let w = Vec2::new(1.0_f32, 2.0);
    assert_eq!((w.x, w.y), (1.0, 2.0));
    let u = Vec4::new(1.0_f32, 2.0, 3.0, 4.0);
    assert_eq!((u.x, u.y, u.z, u.w), (1.0, 2.0, 3.0, 4.0));
}
