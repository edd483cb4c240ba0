use zengine::gl_utility::context::RenderContext;
use zengine::gl_utility::gl_buffer::BufferError;
use zengine::gl_utility::shader::Shader;
use zengine::graphics::sprite::Sprite;
use zengine::math::matrix4x4::Matrix4x4;
use zengine::math::scalar::Scalar;
use zengine::math::vector3::Vector3;

fn basic_shader() -> Shader {
    Shader::new(
        "basic",
        7,
        vec![
            (String::from("u_projection"), 0),
            (String::from("u_model"), 1),
            (String::from("u_color"), 2),
        ],
        vec![(String::from("a_position"), 0)],
    )
}

fn corners(s: &Sprite) -> Vec<(i64, i64, i64, i64)> {
    s.vertices
        .iter()
        .map(|v| (v.position.x, v.position.y, v.position.z, v.position.den))
        .collect()
}

#[test]
fn sprite_defaults() {
    let mut shader = basic_shader();
    let s = Sprite::new("test", &mut shader, None, None);
    assert_eq!(s.name, "test");
    assert_eq!(s.width, Scalar::new(10, 1));
    assert_eq!(s.height, Scalar::new(10, 1));
    assert_eq!(s.origin, Vector3::new(0, 0, 0, 1));
    assert_eq!(s.u_model_location, 1);
    assert_eq!(s.u_color_position, 2);
    assert_eq!(s.program, 7);
    assert!(!s.buffer.configured);
}

#[test]
fn sprite_missing_uniforms_store_sentinel_once() {
    let mut shader = Shader::new("bare", 9, Vec::new(), vec![(String::from("a_position"), 0)]);
    let s = Sprite::new("test", &mut shader, None, None);
    assert_eq!(s.u_model_location, -1);
    assert_eq!(s.u_color_position, -1);
}

#[test]
fn vertices_for_bottom_left_origin() {
    // width 100, height 50, origin (0,0): the rectangle sits on the
    // origin, as the two triangles
    // (0,0) (0,50) (100,50) / (100,50) (100,0) (0,0).
    let mut shader = basic_shader();
    let mut s = Sprite::new(
        "test",
        &mut shader,
        Some(Scalar::new(100, 1)),
        Some(Scalar::new(50, 1)),
    );
    s.load(&mut shader).unwrap();
    assert_eq!(
        corners(&s),
        vec![
            (0, 0, 0, 1),
            (0, 50, 0, 1),
            (100, 50, 0, 1),
            (100, 50, 0, 1),
            (100, 0, 0, 1),
            (0, 0, 0, 1),
        ]
    );
    assert_eq!(s.buffer.stride, 3);
    assert_eq!(s.buffer.vertex_count, 6);
    let flat: Vec<i64> = s.buffer.data.iter().map(|f| f.num).collect();
    assert_eq!(
        flat,
        vec![0, 0, 0, 0, 50, 0, 100, 50, 0, 100, 50, 0, 100, 0, 0, 0, 0, 0]
    );
}

#[test]
fn vertices_for_centered_origin() {
    // origin (1/2, 1/2): the same rectangle centered on the origin,
    // corners at (+-50, +-25).
    let mut shader = basic_shader();
    let mut s = Sprite::new(
        "test",
        &mut shader,
        Some(Scalar::new(100, 1)),
        Some(Scalar::new(50, 1)),
    );
    s.origin = Vector3::new(1, 1, 0, 2);
    s.load(&mut shader).unwrap();
    // Coordinates are numerators over the shared denominator 2.
    assert_eq!(
        corners(&s),
        vec![
            (-100, -50, 0, 2),
            (-100, 50, 0, 2),
            (100, 50, 0, 2),
            (100, 50, 0, 2),
            (100, -50, 0, 2),
            (-100, -50, 0, 2),
        ]
    );
}

#[test]
fn calculate_vertices_is_idempotent() {
    let mut shader = basic_shader();
    let mut s = Sprite::new(
        "test",
        &mut shader,
        Some(Scalar::new(100, 1)),
        Some(Scalar::new(50, 1)),
    );
    s.load(&mut shader).unwrap();
    let vertices_once = s.vertices.clone();
    let data_once = s.buffer.data.clone();
    s.calculate_vertices();
    assert_eq!(s.vertices, vertices_once);
    assert_eq!(s.buffer.data, data_once);
    assert_eq!(s.buffer.vertex_count, 6);
}

#[test]
fn load_rejects_shader_without_position_attribute() {
    let mut shader = Shader::new(
        "bare",
        9,
        vec![(String::from("u_model"), 1), (String::from("u_color"), 2)],
        Vec::new(),
    );
    let mut s = Sprite::new("test", &mut shader, None, None);
    let r = s.load(&mut shader);
    assert!(matches!(r, Err(BufferError::NegativeAttributeLocation)));
    assert!(!s.buffer.configured);
    assert!(!s.buffer.uploaded);
}

#[test]
fn draw_emits_uniform_uploads_then_draw() {
    let mut shader = basic_shader();
    let mut s = Sprite::new(
        "test",
        &mut shader,
        Some(Scalar::new(100, 1)),
        Some(Scalar::new(50, 1)),
    );
    s.load(&mut shader).unwrap();
    let mut ctx = RenderContext::new();
    shader.use_shader(&mut ctx);
    let model = Matrix4x4::identity();
    let cmd = s.draw(&ctx, model);
    let mu = cmd.model_upload.expect("u_model was resolved");
    assert_eq!(mu.location, 1);
    assert_eq!(mu.matrix.data, Matrix4x4::identity().data);
    let cu = cmd.color_upload.expect("u_color was resolved");
    assert_eq!(cu.location, 2);
    // The default sprite color is red.
    assert_eq!((cu.color.r, cu.color.g, cu.color.b, cu.color.a, cu.color.den), (1, 0, 0, 1, 1));
    assert_eq!(cmd.draw.vertex_count, 6);
}

#[test]
fn draw_skips_uniforms_absent_from_shader() {
    let mut shader = Shader::new("bare", 9, Vec::new(), vec![(String::from("a_position"), 0)]);
    let mut s = Sprite::new("test", &mut shader, None, None);
    s.load(&mut shader).unwrap();
    let mut ctx = RenderContext::new();
    shader.use_shader(&mut ctx);
    let cmd = s.draw(&ctx, Matrix4x4::identity());
    assert!(cmd.model_upload.is_none());
    assert!(cmd.color_upload.is_none());
    assert_eq!(cmd.draw.vertex_count, 6);
}
