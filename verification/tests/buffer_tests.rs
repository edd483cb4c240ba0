use zengine::gl_utility::context::RenderContext;
use zengine::gl_utility::gl_buffer::{AttributeInfo, BufferError, GLBuffer};
use zengine::math::scalar::Scalar;

fn floats(n: i64) -> Vec<Scalar> {
    let mut v = Vec::new();
    for i in 0..n {
        v.push(Scalar::new(i, 1));
    }
    v
}

#[test]
fn new_buffer_is_empty() {
    let b = GLBuffer::new();
    assert!(!b.configured);
    assert!(!b.uploaded);
    assert_eq!(b.vertex_count, 0);
    assert_eq!(b.stride, 0);
}

#[test]
fn configure_records_layout() {
    let mut b = GLBuffer::new();
    let r = b.configure(
        vec![
            AttributeInfo { location: 0, component_size: 3 },
            AttributeInfo { location: 1, component_size: 2 },
        ],
        true,
    );
    assert!(r.is_ok());
    assert!(b.configured);
    assert_eq!(b.stride, 5);
    assert!(b.interleaved);
    assert_eq!(b.attributes.len(), 2);
}

#[test]
fn configure_rejects_negative_location() {
    let mut b = GLBuffer::new();
    let r = b.configure(vec![AttributeInfo { location: -1, component_size: 3 }], false);
    assert!(matches!(r, Err(BufferError::NegativeAttributeLocation)));
    assert!(!b.configured);
}

#[test]
fn configure_rejects_zero_stride() {
    let mut b = GLBuffer::new();
    let r = b.configure(vec![AttributeInfo { location: 0, component_size: 0 }], false);
    assert!(matches!(r, Err(BufferError::InvalidStride)));
    assert!(!b.configured);
}

#[test]
fn configure_rejects_oversized_stride() {
    let mut b = GLBuffer::new();
    let r = b.configure(vec![AttributeInfo { location: 0, component_size: 5000 }], false);
    assert!(matches!(r, Err(BufferError::InvalidStride)));
    assert!(!b.configured);
}

#[test]
fn upload_rejects_length_not_multiple_of_stride() {
    let mut b = GLBuffer::new();
    b.configure(vec![AttributeInfo { location: 0, component_size: 3 }], false).unwrap();
    let r = b.upload(floats(17));
    assert!(matches!(r, Err(BufferError::DataLengthNotMultipleOfStride)));
    assert!(!b.uploaded);
    assert_eq!(b.vertex_count, 0);
    assert_eq!(b.data.len(), 0);
}

#[test]
fn upload_records_vertex_count() {
    let mut b = GLBuffer::new();
    b.configure(vec![AttributeInfo { location: 0, component_size: 3 }], false).unwrap();
    let r = b.upload(floats(18));
    assert!(r.is_ok());
    assert!(b.uploaded);
    assert_eq!(b.vertex_count, 6);
    assert_eq!(b.data.len(), 18);
    assert_eq!(b.data[4], Scalar::new(4, 1));
}

#[test]
fn draw_covers_all_uploaded_vertices() {
    let mut b = GLBuffer::new();
    b.configure(vec![AttributeInfo { location: 0, component_size: 3 }], false).unwrap();
    b.upload(floats(9)).unwrap();
    let mut ctx = RenderContext::new();
    ctx.active_program = Some(1);
    let cmd = b.draw(&ctx);
    assert_eq!(cmd.vertex_count, 3);
}
