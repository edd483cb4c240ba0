use vstd::prelude::*;

use crate::gl_utility::context::{DrawArrays, RenderContext};
use crate::gl_utility::gl_buffer::{
    all_locations_valid, stride_of, AttributeInfo, BufferError, GLBuffer,
};
use crate::gl_utility::shader::{lookup, Shader};
use crate::graphics::color::Color;
use crate::graphics::vertex::Vertex;
use crate::math::matrix4x4::{lemma_mul_bounds, Matrix4x4};
use crate::math::scalar::Scalar;
use crate::math::vector3::Vector3;

verus! {

/// Largest numerator / denominator magnitude a sprite's width, height
/// and origin may carry so that vertex generation stays within 64-bit
/// range.
pub const SPRITE_LIMIT: i64 = 8192;

/// An instruction to the GPU layer: upload `matrix` (sixteen values,
/// column-major) to the uniform at `location` of the active program.
pub struct Mat4Upload {
    pub location: i32,
    pub matrix: Matrix4x4,
}

/// An instruction to the GPU layer: upload `color` (four channels) to
/// the uniform at `location` of the active program.
#[derive(Clone, Copy, PartialEq, Eq, Structural, Debug)]
pub struct ColorUpload {
    pub location: i32,
    pub color: Color,
}

/// Everything one sprite draw sends to the GPU, in the order it must
/// be sent: the model-matrix uniform, the color uniform, then the
/// triangle-list draw itself. A uniform whose location is the
/// not-found sentinel is skipped (`None`) rather than uploaded to a
/// negative location.
pub struct DrawCommand {
    pub model_upload: Option<Mat4Upload>,
    pub color_upload: Option<ColorUpload>,
    pub draw: DrawArrays,
}

/// The denominator shared by every generated vertex coordinate.
pub open spec fn vertex_den(s: Sprite) -> int {
    (s.width.den * s.height.den) * s.origin.den
}

/// Numerator of the rectangle's left edge: `-(width * origin.x)`.
pub open spec fn min_x_num(s: Sprite) -> int {
    -((s.width.num * s.origin.x) * s.height.den)
}

/// Numerator of the rectangle's right edge: `width * (1 - origin.x)`.
pub open spec fn max_x_num(s: Sprite) -> int {
    (s.width.num * (s.origin.den - s.origin.x)) * s.height.den
}

/// Numerator of the rectangle's bottom edge: `-(height * origin.y)`.
pub open spec fn min_y_num(s: Sprite) -> int {
    -((s.height.num * s.origin.y) * s.width.den)
}

/// Numerator of the rectangle's top edge: `height * (1 - origin.y)`.
pub open spec fn max_y_num(s: Sprite) -> int {
    (s.height.num * (s.origin.den - s.origin.y)) * s.width.den
}

/// X numerator of vertex `i` of the two triangles
/// `(min,min) (min,max) (max,max)` and `(max,max) (max,min) (min,min)`.
pub open spec fn corner_x(s: Sprite, i: int) -> int {
    if i == 0 || i == 1 || i == 5 {
        min_x_num(s)
    } else {
        max_x_num(s)
    }
}

/// Y numerator of vertex `i`.
pub open spec fn corner_y(s: Sprite, i: int) -> int {
    if i == 0 || i == 4 || i == 5 {
        min_y_num(s)
    } else {
        max_y_num(s)
    }
}

/// Value `j` of the flattened position stream handed to the buffer:
/// x, y, z of vertex 0, then of vertex 1, and so on.
pub open spec fn flat_num(s: Sprite, j: int) -> int {
    if j % 3 == 0 {
        corner_x(s, j / 3)
    } else if j % 3 == 1 {
        corner_y(s, j / 3)
    } else {
        0
    }
}

/// Width, height and origin all lie within `limit`.
pub open spec fn dims_bounded(s: Sprite, limit: int) -> bool {
    &&& s.width.bounded(limit)
    &&& s.height.bounded(limit)
    &&& s.origin.bounded(limit)
}

/// An axis-aligned rectangular sprite: logical size, a normalized
/// pivot (`origin` in `[0,1]^2`, `(0,0)` the bottom-left corner) that
/// rotations and scales pivot around, a flat color, the uniform
/// locations it resolved once at construction, and the buffer holding
/// its two-triangle geometry. The sprite refers to its shader by the
/// program handle; the owner passes the shader itself to the
/// operations that resolve locations.
pub struct Sprite {
    pub name: String,
    pub width: Scalar,
    pub height: Scalar,
    pub origin: Vector3,
    pub color: Color,
    pub u_color_position: i32,
    pub u_model_location: i32,
    pub program: u32,
    pub buffer: GLBuffer,
    pub vertices: Vec<Vertex>,
}

impl Sprite {
    pub open spec fn wf(self) -> bool {
        &&& self.width.wf()
        &&& self.height.wf()
        &&& self.origin.wf()
        &&& self.color.wf()
        &&& self.buffer.wf()
        &&& self.vertices@.len() == 6
    }

    /// A sprite drawn with `shader`: dimensions default to 10 by 10
    /// units when omitted, the pivot to the bottom-left corner, the
    /// color to red. The `u_color` and `u_model` uniform locations are
    /// resolved once here, not on every frame; a shader lacking them
    /// stores the sentinel once.
    pub fn new(name: &str, shader: &mut Shader, width: Option<Scalar>, height: Option<Scalar>)
        -> (s: Sprite)
        requires
            old(shader).wf(),
            width matches Some(w) ==> w.wf(),
            height matches Some(h) ==> h.wf(),
        ensures
            s.wf(),
            final(shader).wf(),
            final(shader).uniforms@ == old(shader).uniforms@,
            final(shader).attributes@ == old(shader).attributes@,
            final(shader).program == old(shader).program,
            final(shader).name == old(shader).name,
            s.name@ == name@,
            width matches Some(w) ==> s.width == w,
            width is None ==> s.width == (Scalar { num: 10i64, den: 1i64 }),
            height matches Some(h) ==> s.height == h,
            height is None ==> s.height == (Scalar { num: 10i64, den: 1i64 }),
            s.origin == (Vector3 { x: 0i64, y: 0i64, z: 0i64, den: 1i64 }),
            s.color == (Color { r: 1i64, g: 0i64, b: 0i64, a: 1i64, den: 1i64 }),
            s.u_color_position == lookup(old(shader).uniforms@, "u_color"@),
            s.u_model_location == lookup(old(shader).uniforms@, "u_model"@),
            s.program == old(shader).program,
            !s.buffer.configured,
            !s.buffer.uploaded,
    {
        let u_color_position = shader.get_uniform_location("u_color");
        let u_model_location = shader.get_uniform_location("u_model");
        let mut vertices: Vec<Vertex> = Vec::new();
        let mut i: usize = 0;
        while i < 6
            invariant
                vertices@.len() == i,
                i <= 6,
            decreases 6 - i,
        {
            vertices.push(Vertex::new(0, 0, 0, 1));
            i += 1;
        }
        Sprite {
            name: name.to_owned(),
            width: match width {
                Some(w) => w,
                None => Scalar::from_int(10),
            },
            height: match height {
                Some(h) => h,
                None => Scalar::from_int(10),
            },
            origin: Vector3::zero(),
            color: Color::red(),
            u_color_position,
            u_model_location,
            program: shader.program,
            buffer: GLBuffer::new(),
            vertices,
        }
    }

    /// Resolve the `a_position` attribute, configure the buffer with
    /// that single three-component attribute, and generate and upload
    /// the vertices. Must run before the first draw and again whenever
    /// width, height or origin change. Rejects a shader without an
    /// `a_position` attribute (its location would be the sentinel)
    /// instead of binding it silently; the sprite is then unchanged.
    #[verifier::loop_isolation(false)]
    pub fn load(&mut self, shader: &mut Shader) -> (r: Result<(), BufferError>)
        requires
            old(self).wf(),
            old(shader).wf(),
            old(shader).program == old(self).program,
            dims_bounded(*old(self), SPRITE_LIMIT as int),
        ensures
            final(self).wf(),
            final(shader).wf(),
            final(shader).uniforms@ == old(shader).uniforms@,
            final(shader).attributes@ == old(shader).attributes@,
            final(shader).program == old(shader).program,
            final(shader).name == old(shader).name,
            r is Ok <==> lookup(old(shader).attributes@, "a_position"@) >= 0,
            r is Err ==> *final(self) == *old(self) && r == Err::<(), BufferError>(
                BufferError::NegativeAttributeLocation,
            ),
            r is Ok ==> {
                &&& final(self).buffer.configured
                &&& final(self).buffer.stride == 3
                &&& final(self).buffer.interleaved == false
                &&& final(self).buffer.attributes@.len() == 1
                &&& final(self).buffer.attributes@[0] == (AttributeInfo {
                    location: lookup(old(shader).attributes@, "a_position"@),
                    component_size: 3u32,
                })
                &&& has_fresh_vertices(*final(self), *old(self))
                &&& unchanged_dims(*final(self), *old(self))
            },
    {
        let a_position_location = shader.get_attribute_location("a_position");
        let mut attrs: Vec<AttributeInfo> = Vec::new();
        attrs.push(AttributeInfo { location: a_position_location, component_size: 3 });
        proof {
            assert(stride_of(Seq::<AttributeInfo>::empty()) == 0);
            assert(attrs@.drop_last() =~= Seq::<AttributeInfo>::empty());
            assert(attrs@.last() == (AttributeInfo {
                location: a_position_location,
                component_size: 3u32,
            }));
            assert(stride_of(attrs@) == 3);
            if a_position_location >= 0 {
                assert forall|i: int| 0 <= i < attrs@.len() implies #[trigger] attrs@[i].location
                    >= 0 by {
                    assert(attrs@[i] == attrs@[0]);
                }
            }
            if all_locations_valid(attrs@) {
                assert(attrs@[0].location >= 0);
            }
        }
        let cfg = self.buffer.configure(attrs, false);
        match cfg {
            Ok(_) => {
                self.calculate_vertices();
                Ok(())
            },
            Err(e) => Err(e),
        }
    }

    /// Generate the six-vertex rectangle of size `(width, height)`
    /// offset by `-(origin * size)` and upload the flattened position
    /// stream to the buffer. Deterministic in width, height and
    /// origin, so recomputing with unchanged fields reproduces the
    /// identical vertex list and buffer contents.
    #[verifier::loop_isolation(false)]
    pub fn calculate_vertices(&mut self)
        requires
            old(self).wf(),
            dims_bounded(*old(self), SPRITE_LIMIT as int),
            old(self).buffer.configured,
            old(self).buffer.stride == 3,
        ensures
            final(self).wf(),
            has_fresh_vertices(*final(self), *old(self)),
            unchanged_dims(*final(self), *old(self)),
            final(self).buffer.configured,
            final(self).buffer.stride == 3,
            final(self).buffer.attributes@ == old(self).buffer.attributes@,
            final(self).buffer.interleaved == old(self).buffer.interleaved,
    {
        let w = self.width;
        let h = self.height;
        let o = self.origin;
        proof {
            lemma_mul_bounds(w.den as int, h.den as int, SPRITE_LIMIT as int, SPRITE_LIMIT as int);
            lemma_mul_bounds((w.den * h.den) as int, o.den as int, 0x4000000, SPRITE_LIMIT as int);
            assert((w.den * h.den) * o.den >= 1) by (nonlinear_arith)
                requires
                    w.den >= 1,
                    h.den >= 1,
                    o.den >= 1,
            ;
            lemma_mul_bounds(w.num as int, o.x as int, SPRITE_LIMIT as int, SPRITE_LIMIT as int);
            lemma_mul_bounds((w.num * o.x) as int, h.den as int, 0x4000000, SPRITE_LIMIT as int);
            lemma_mul_bounds(w.num as int, (o.den - o.x) as int, SPRITE_LIMIT as int, 2
                * SPRITE_LIMIT as int);
            lemma_mul_bounds((w.num * (o.den - o.x)) as int, h.den as int, 0x8000000,
                SPRITE_LIMIT as int);
            lemma_mul_bounds(h.num as int, o.y as int, SPRITE_LIMIT as int, SPRITE_LIMIT as int);
            lemma_mul_bounds((h.num * o.y) as int, w.den as int, 0x4000000, SPRITE_LIMIT as int);
            lemma_mul_bounds(h.num as int, (o.den - o.y) as int, SPRITE_LIMIT as int, 2
                * SPRITE_LIMIT as int);
            lemma_mul_bounds((h.num * (o.den - o.y)) as int, w.den as int, 0x8000000,
                SPRITE_LIMIT as int);
        }
        let d = (w.den * h.den) * o.den;
        let minx = -((w.num * o.x) * h.den);
        let maxx = (w.num * (o.den - o.x)) * h.den;
        let miny = -((h.num * o.y) * w.den);
        let maxy = (h.num * (o.den - o.y)) * w.den;
        let mut vs: Vec<Vertex> = Vec::new();
        let mut data: Vec<Scalar> = Vec::new();
        let mut i: usize = 0;
        while i < 6
            invariant
                i <= 6,
                vs@.len() == i,
                data@.len() == 3 * i,
                forall|k: int| 0 <= k < i ==> {
                    &&& (#[trigger] vs@[k]).position.x as int == corner_x(*old(self), k)
                    &&& vs@[k].position.y as int == corner_y(*old(self), k)
                    &&& vs@[k].position.z == 0
                    &&& vs@[k].position.den as int == vertex_den(*old(self))
                },
                forall|j: int| 0 <= j < 3 * i ==> {
                    &&& (#[trigger] data@[j]).num as int == flat_num(*old(self), j)
                    &&& data@[j].den as int == vertex_den(*old(self))
                },
            decreases 6 - i,
        {
            let vx = if i == 0 || i == 1 || i == 5 {
                minx
            } else {
                maxx
            };
            let vy = if i == 0 || i == 4 || i == 5 {
                miny
            } else {
                maxy
            };
            vs.push(Vertex::new(vx, vy, 0, d));
            data.push(Scalar::new(vx, d));
            data.push(Scalar::new(vy, d));
            data.push(Scalar::new(0, d));
            proof {
                assert((3 * i as int) % 3 == 0 && (3 * i as int) / 3 == i as int);
                assert((3 * i as int + 1) % 3 == 1 && (3 * i as int + 1) / 3 == i as int);
                assert((3 * i as int + 2) % 3 == 2);
            }
            i += 1;
        }
        self.vertices = vs;
        let _ = self.buffer.upload(data);
    }

    /// The GPU instructions for one draw of this sprite under `model`:
    /// upload the model matrix and the sprite's color to the uniform
    /// locations resolved at construction (skipping any sentinel),
    /// then draw the uploaded triangles. The caller's protocol must
    /// already have activated this sprite's program — which the
    /// context argument enforces — and set any shared uniforms such as
    /// the projection.
    pub fn draw(&self, ctx: &RenderContext, model: Matrix4x4) -> (cmd: DrawCommand)
        requires
            self.wf(),
            self.buffer.uploaded,
            ctx.active_program == Some(self.program),
        ensures
            self.u_model_location >= 0 ==> (cmd.model_upload matches Some(mu) && mu.location
                == self.u_model_location && mu.matrix == model),
            self.u_model_location < 0 ==> cmd.model_upload is None,
            self.u_color_position >= 0 ==> (cmd.color_upload matches Some(cu) && cu.location
                == self.u_color_position && cu.color == self.color),
            self.u_color_position < 0 ==> cmd.color_upload is None,
            cmd.draw.vertex_count == self.buffer.vertex_count,
    {
        let model_upload = if self.u_model_location >= 0 {
            Some(Mat4Upload { location: self.u_model_location, matrix: model })
        } else {
            None
        };
        let color_upload = if self.u_color_position >= 0 {
            Some(ColorUpload { location: self.u_color_position, color: self.color })
        } else {
            None
        };
        let draw = self.buffer.draw(ctx);
        DrawCommand { model_upload, color_upload, draw }
    }
}

/// `s` carries exactly the vertices and uploaded stream generated from
/// `base`'s width, height and origin: the two triangles of the
/// rectangle, six vertices, eighteen uploaded values.
pub open spec fn has_fresh_vertices(s: Sprite, base: Sprite) -> bool {
    &&& s.vertices@.len() == 6
    &&& forall|k: int| 0 <= k < 6 ==> {
        &&& (#[trigger] s.vertices@[k]).position.x as int == corner_x(base, k)
        &&& s.vertices@[k].position.y as int == corner_y(base, k)
        &&& s.vertices@[k].position.z == 0
        &&& s.vertices@[k].position.den as int == vertex_den(base)
    }
    &&& s.buffer.uploaded
    &&& s.buffer.vertex_count == 6
    &&& s.buffer.data@.len() == 18
    &&& forall|j: int| 0 <= j < 18 ==> {
        &&& (#[trigger] s.buffer.data@[j]).num as int == flat_num(base, j)
        &&& s.buffer.data@[j].den as int == vertex_den(base)
    }
}

/// Everything but the generated geometry is as it was.
pub open spec fn unchanged_dims(s: Sprite, base: Sprite) -> bool {
    &&& s.name == base.name
    &&& s.width == base.width
    &&& s.height == base.height
    &&& s.origin == base.origin
    &&& s.color == base.color
    &&& s.u_color_position == base.u_color_position
    &&& s.u_model_location == base.u_model_location
    &&& s.program == base.program
}

/// Vertex generation is deterministic and therefore idempotent: the
/// corner numerators and the flattened stream are functions of width,
/// height and origin alone, so recomputing them from unchanged fields
/// reproduces bit-identical vertices and buffer contents.
pub proof fn lemma_calculate_vertices_deterministic(s1: Sprite, s2: Sprite)
    requires
        s1.width == s2.width,
        s1.height == s2.height,
        s1.origin == s2.origin,
    ensures
        vertex_den(s1) == vertex_den(s2),
        forall|k: int| 0 <= k < 6 ==> #[trigger] corner_x(s1, k) == corner_x(s2, k)
            && corner_y(s1, k) == corner_y(s2, k),
        forall|j: int| 0 <= j < 18 ==> #[trigger] flat_num(s1, j) == flat_num(s2, j),
{
}

} // verus!
