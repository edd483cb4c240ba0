use vstd::prelude::*;

verus! {

/// An RGBA color: each channel is the rational `value / den` in
/// `[0, 1]` (the shared denominator is positive and every channel
/// numerator lies between zero and it).
#[derive(Clone, Copy, PartialEq, Eq, Structural, Debug)]
pub struct Color {
    pub r: i64,
    pub g: i64,
    pub b: i64,
    pub a: i64,
    pub den: i64,
}

impl Color {
    pub open spec fn wf(self) -> bool {
        &&& self.den >= 1
        &&& 0 <= self.r <= self.den
        &&& 0 <= self.g <= self.den
        &&& 0 <= self.b <= self.den
        &&& 0 <= self.a <= self.den
    }

    pub fn new(r: i64, g: i64, b: i64, a: i64, den: i64) -> (c: Color)
        requires
            den >= 1,
            0 <= r <= den,
            0 <= g <= den,
            0 <= b <= den,
            0 <= a <= den,
        ensures
            c == (Color { r, g, b, a, den }),
            c.wf(),
    {
        Color { r, g, b, a, den }
    }

    pub fn red() -> (c: Color)
        ensures
            c == (Color { r: 1i64, g: 0i64, b: 0i64, a: 1i64, den: 1i64 }),
            c.wf(),
    {
        Color { r: 1, g: 0, b: 0, a: 1, den: 1 }
    }

    pub fn green() -> (c: Color)
        ensures
            c == (Color { r: 0i64, g: 1i64, b: 0i64, a: 1i64, den: 1i64 }),
            c.wf(),
    {
        Color { r: 0, g: 1, b: 0, a: 1, den: 1 }
    }

    pub fn blue() -> (c: Color)
        ensures
            c == (Color { r: 0i64, g: 0i64, b: 1i64, a: 1i64, den: 1i64 }),
            c.wf(),
    {
        Color { r: 0, g: 0, b: 1, a: 1, den: 1 }
    }

    pub fn white() -> (c: Color)
        ensures
            c == (Color { r: 1i64, g: 1i64, b: 1i64, a: 1i64, den: 1i64 }),
            c.wf(),
    {
        Color { r: 1, g: 1, b: 1, a: 1, den: 1 }
    }

    pub fn black() -> (c: Color)
        ensures
            c == (Color { r: 0i64, g: 0i64, b: 0i64, a: 1i64, den: 1i64 }),
            c.wf(),
    {
        Color { r: 0, g: 0, b: 0, a: 1, den: 1 }
    }
}

} // verus!
