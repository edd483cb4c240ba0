use zengine::graphics::color::Color;
use zengine::graphics::vertex::Vertex;

#[test]
fn named_colors() {
    let r = Color::red();
    assert_eq!((r.r, r.g, r.b, r.a, r.den), (1, 0, 0, 1, 1));
    let g = Color::green();
    assert_eq!((g.r, g.g, g.b, g.a, g.den), (0, 1, 0, 1, 1));
    let b = Color::blue();
    assert_eq!((b.r, b.g, b.b, b.a, b.den), (0, 0, 1, 1, 1));
    let w = Color::white();
    assert_eq!((w.r, w.g, w.b, w.a, w.den), (1, 1, 1, 1, 1));
    let k = Color::black();
    assert_eq!((k.r, k.g, k.b, k.a, k.den), (0, 0, 0, 1, 1));
}

#[test]
fn fractional_color_channels() {
    // 60% grey at half opacity, channels over the denominator 10.
    let c = Color::new(6, 6, 6, 5, 10);
    assert_eq!((c.r, c.g, c.b, c.a, c.den), (6, 6, 6, 5, 10));
}

#[test]
fn vertex_carries_position() {
    let v = Vertex::new(3, -4, 5, 2);
    assert_eq!((v.position.x, v.position.y, v.position.z, v.position.den), (3, -4, 5, 2));
}
