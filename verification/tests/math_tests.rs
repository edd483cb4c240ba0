use zengine::math::matrix4x4::{Matrix4x4, RotationZ};
use zengine::math::transform::Transform;
use zengine::math::vector3::Vector3;

#[test]
fn identity_matrix_entries() {
    let m = Matrix4x4::identity();
    assert_eq!(m.den, 1);
    assert_eq!(m.data, vec![1, 0, 0, 0, 0, 1, 0, 0, 0, 0, 1, 0, 0, 0, 0, 1]);
}

#[test]
fn translation_matrix_entries() {
    let m = Matrix4x4::translation(&Vector3::new(5, 6, 7, 1));
    assert_eq!(m.den, 1);
    assert_eq!(m.data, vec![1, 0, 0, 0, 0, 1, 0, 0, 0, 0, 1, 0, 5, 6, 7, 1]);
}

#[test]
fn scale_matrix_entries() {
    let m = Matrix4x4::scale(&Vector3::new(2, 3, 4, 1));
    assert_eq!(m.den, 1);
    assert_eq!(m.data, vec![2, 0, 0, 0, 0, 3, 0, 0, 0, 0, 4, 0, 0, 0, 0, 1]);
}

#[test]
fn rotation_quarter_turns_exact() {
    let r0 = RotationZ::from_quarter_turns(0);
    assert_eq!((r0.cos, r0.sin, r0.den), (1, 0, 1));
    let r1 = RotationZ::from_quarter_turns(1);
    assert_eq!((r1.cos, r1.sin, r1.den), (0, 1, 1));
    let r2 = RotationZ::from_quarter_turns(2);
    assert_eq!((r2.cos, r2.sin, r2.den), (-1, 0, 1));
    let r3 = RotationZ::from_quarter_turns(3);
    assert_eq!((r3.cos, r3.sin, r3.den), (0, -1, 1));
    let r5 = RotationZ::from_quarter_turns(5);
    assert_eq!((r5.cos, r5.sin, r5.den), (0, 1, 1));
}

#[test]
fn multiply_translation_by_scale() {
    let t = Matrix4x4::translation(&Vector3::new(10, 0, 0, 1));
    let s = Matrix4x4::scale(&Vector3::new(2, 1, 1, 1));
    let m = Matrix4x4::multiply(&t, &s);
    assert_eq!(m.den, 1);
    assert_eq!(m.data, vec![2, 0, 0, 0, 0, 1, 0, 0, 0, 0, 1, 0, 10, 0, 0, 1]);
}

#[test]
fn orthographic_screen_box_entries() {
    // The 800 x 600 screen box with the depth range [-100, 100].
    let m = Matrix4x4::orthographic(0, 800, 0, 600, -100, 100);
    let den: i64 = 800 * 600 * 200;
    assert_eq!(m.den, den);
    // Diagonal: 2/(r-l), 2/(t-b), 2/(f-n) over the shared denominator.
    assert_eq!(m.data[0], 2 * 600 * 200);
    assert_eq!(m.data[5], 2 * 800 * 200);
    assert_eq!(m.data[10], 2 * 800 * 600);
    // Translation column: -(r+l)/(r-l), -(t+b)/(t-b), -(f+n)/(f-n).
    assert_eq!(m.data[12], -(800 * 600 * 200));
    assert_eq!(m.data[13], -(600 * 800 * 200));
    assert_eq!(m.data[14], 0);
    assert_eq!(m.data[15], den);
}

#[test]
fn orthographic_maps_corners_to_clip_cube() {
    let m = Matrix4x4::orthographic(0, 800, 0, 600, -100, 100);
    let den: i64 = 800 * 600 * 200;
    // The low corner lands on clip (-1, -1, -1) ...
    let low = m.transform_point(&Vector3::new(0, 0, -100, 1));
    assert_eq!(low.den, den);
    assert_eq!((low.x, low.y, low.z), (-den, -den, -den));
    // ... and the high corner on clip (1, 1, 1).
    let high = m.transform_point(&Vector3::new(800, 600, 100, 1));
    assert_eq!(high.den, den);
    assert_eq!((high.x, high.y, high.z), (den, den, den));
}

#[test]
fn orthographic_asymmetric_box_corners() {
    let m = Matrix4x4::orthographic(-40, 120, 10, 30, 1, 5);
    let den: i64 = 160 * 20 * 4;
    let low = m.transform_point(&Vector3::new(-40, 10, 1, 1));
    assert_eq!((low.x, low.y, low.z, low.den), (-den, -den, -den, den));
    let high = m.transform_point(&Vector3::new(120, 30, 5, 1));
    assert_eq!((high.x, high.y, high.z, high.den), (den, den, den, den));
}

#[test]
fn default_transform_leaves_points_unchanged() {
    let t = Transform::new();
    let m = t.get_transformation_matrix();
    assert_eq!(m.den, 1);
    let p = m.transform_point(&Vector3::new(123, -45, 7, 1));
    assert_eq!((p.x, p.y, p.z, p.den), (123, -45, 7, 1));
    let q = m.transform_point(&Vector3::new(-3, 0, 12, 4));
    assert_eq!((q.x, q.y, q.z, q.den), (-3, 0, 12, 4));
}

#[test]
fn transform_applies_scale_then_rotation_then_translation() {
    // Regression fixture: position (10,0,0), rotation 90 degrees about
    // Z, scale (2,1,1) must take the local point (1,0,0) to (10,2,0) —
    // scale first (2,0,0), then rotate (0,2,0), then translate.
    let mut t = Transform::new();
    t.position = Vector3::new(10, 0, 0, 1);
    t.rotation = RotationZ::from_quarter_turns(1);
    t.scale = Vector3::new(2, 1, 1, 1);
    let m = t.get_transformation_matrix();
    assert_eq!(m.den, 1);
    let p = m.transform_point(&Vector3::new(1, 0, 0, 1));
    assert_eq!((p.x, p.y, p.z, p.den), (10, 2, 0, 1));
}

#[test]
fn transform_mutation_reflected_on_next_query() {
    let mut t = Transform::new();
    t.position = Vector3::new(150, 150, 0, 1);
    let m1 = t.get_transformation_matrix();
    assert_eq!((m1.data[12], m1.data[13]), (150, 150));
    t.position = Vector3::new(-7, 9, 0, 1);
    let m2 = t.get_transformation_matrix();
    assert_eq!((m2.data[12], m2.data[13]), (-7, 9));
}

#[test]
fn fractional_scale_transform() {
    // scale x by 33/10 (3.3), as the demo scene does.
    let mut t = Transform::new();
    t.scale = Vector3::new(33, 10, 10, 10);
    let m = t.get_transformation_matrix();
    assert_eq!(m.den, 10);
    let p = m.transform_point(&Vector3::new(10, 10, 0, 1));
    // (10 * 3.3, 10 * 1, 0) = (33, 10, 0): numerators over den 10.
    assert_eq!((p.x, p.y, p.z, p.den), (330, 100, 0, 10));
}
