use vstd::prelude::*;

use crate::gl_utility::context::{DrawArrays, RenderContext};
use crate::math::scalar::Scalar;

verus! {

/// Largest total stride (components per vertex) a buffer accepts.
pub const MAX_STRIDE: usize = 4096;

/// One vertex attribute binding: the shader-resolved location it feeds
/// and how many components each vertex contributes to it.
#[derive(Clone, Copy, PartialEq, Eq, Structural, Debug)]
pub struct AttributeInfo {
    pub location: i32,
    pub component_size: u32,
}

/// Why a buffer operation was rejected.
#[derive(Clone, Copy, PartialEq, Eq, Structural, Debug)]
pub enum BufferError {
    /// An attribute location was the not-found sentinel (negative):
    /// binding it would silently feed a non-existent attribute.
    NegativeAttributeLocation,
    /// The attribute layout adds up to zero components per vertex, or
    /// to more than `MAX_STRIDE`.
    InvalidStride,
    /// The uploaded data length is not a whole number of vertices for
    /// the configured layout.
    DataLengthNotMultipleOfStride,
}

/// Components per vertex of an attribute layout: the sum of the
/// component sizes.
pub open spec fn stride_of(attrs: Seq<AttributeInfo>) -> int
    decreases attrs.len(),
{
    if attrs.len() == 0 {
        0
    } else {
        stride_of(attrs.drop_last()) + attrs.last().component_size
    }
}

/// No attribute carries the not-found sentinel.
pub open spec fn all_locations_valid(attrs: Seq<AttributeInfo>) -> bool {
    forall|i: int| 0 <= i < attrs.len() ==> #[trigger] attrs[i].location >= 0
}

/// Adding entries never shrinks the stride.
proof fn lemma_stride_prefix(attrs: Seq<AttributeInfo>, k: int)
    requires
        0 <= k < attrs.len(),
    ensures
        stride_of(attrs.take(k + 1)) == stride_of(attrs.take(k)) + attrs[k].component_size,
{
    assert(attrs.take(k + 1).drop_last() =~= attrs.take(k));
    assert(attrs.take(k + 1).last() == attrs[k]);
}

/// A prefix's stride never exceeds the whole layout's stride.
proof fn lemma_stride_monotone(attrs: Seq<AttributeInfo>, k: int)
    requires
        0 <= k <= attrs.len(),
    ensures
        stride_of(attrs.take(k)) <= stride_of(attrs),
    decreases attrs.len() - k,
{
    if k == attrs.len() {
        assert(attrs.take(k) =~= attrs);
    } else {
        lemma_stride_prefix(attrs, k);
        lemma_stride_monotone(attrs, k + 1);
    }
}

/// A vertex buffer, modelled as the engine sees it: the attribute
/// layout, the data most recently pushed to the device, and where the
/// buffer stands in its `created -> configured -> uploaded` protocol.
/// The GPU layer mirrors this model one-to-one onto the device.
pub struct GLBuffer {
    pub attributes: Vec<AttributeInfo>,
    pub interleaved: bool,
    pub stride: usize,
    pub configured: bool,
    pub uploaded: bool,
    pub data: Vec<Scalar>,
    pub vertex_count: usize,
}

impl GLBuffer {
    pub open spec fn wf(self) -> bool {
        &&& self.configured ==> {
            &&& self.stride as int == stride_of(self.attributes@)
            &&& 1 <= self.stride <= MAX_STRIDE
            &&& all_locations_valid(self.attributes@)
        }
        &&& !self.configured ==> !self.uploaded
        &&& self.uploaded ==> self.data@.len() == self.vertex_count * self.stride
        &&& !self.uploaded ==> self.data@.len() == 0 && self.vertex_count == 0
    }

    /// An empty buffer: nothing configured, nothing uploaded, no
    /// device-side allocation implied yet.
    pub fn new() -> (b: GLBuffer)
        ensures
            b.wf(),
            !b.configured,
            !b.uploaded,
            b.attributes@.len() == 0,
            b.data@.len() == 0,
            b.vertex_count == 0,
            b.stride == 0,
    {
        GLBuffer {
            attributes: Vec::new(),
            interleaved: false,
            stride: 0,
            configured: false,
            uploaded: false,
            data: Vec::new(),
            vertex_count: 0,
        }
    }

    /// Record the attribute layout that uploads and draws must honor.
    /// Rejects a layout containing the not-found sentinel (a negative
    /// location) or one whose stride is zero or past `MAX_STRIDE`;
    /// a rejected call leaves the buffer untouched. Accepting a call
    /// discards any previously uploaded data.
    #[verifier::loop_isolation(false)]
    pub fn configure(&mut self, attributes: Vec<AttributeInfo>, interleaved: bool) -> (r: Result<
        (),
        BufferError,
    >)
        requires
            old(self).wf(),
        ensures
            final(self).wf(),
            r is Ok <==> (all_locations_valid(attributes@) && 1 <= stride_of(attributes@)
                <= MAX_STRIDE),
            !all_locations_valid(attributes@) ==> r == Err::<(), BufferError>(
                BufferError::NegativeAttributeLocation,
            ),
            all_locations_valid(attributes@) && !(1 <= stride_of(attributes@) <= MAX_STRIDE)
                ==> r == Err::<(), BufferError>(BufferError::InvalidStride),
            r is Err ==> *final(self) == *old(self),
            r is Ok ==> {
                &&& final(self).attributes@ == attributes@
                &&& final(self).interleaved == interleaved
                &&& final(self).stride as int == stride_of(attributes@)
                &&& final(self).configured
                &&& !final(self).uploaded
                &&& final(self).data@.len() == 0
                &&& final(self).vertex_count == 0
            },
    {
        let n = attributes.len();
        let mut i: usize = 0;
        while i < n
            invariant
                n == attributes@.len(),
                i <= n,
                forall|j: int| 0 <= j < i ==> #[trigger] attributes@[j].location >= 0,
            decreases n - i,
        {
            if attributes[i].location < 0 {
                return Err(BufferError::NegativeAttributeLocation);
            }
            i += 1;
        }
        let mut stride: usize = 0;
        let mut k: usize = 0;
        while k < n
            invariant
                n == attributes@.len(),
                k <= n,
                stride as int == stride_of(attributes@.take(k as int)),
                stride <= MAX_STRIDE,
            decreases n - k,
        {
            let s = attributes[k].component_size as usize;
            proof {
                lemma_stride_prefix(attributes@, k as int);
            }
            if s > MAX_STRIDE - stride {
                proof {
                    lemma_stride_monotone(attributes@, k as int + 1);
                }
                return Err(BufferError::InvalidStride);
            }
            stride = stride + s;
            k += 1;
        }
        proof {
            assert(attributes@.take(n as int) =~= attributes@);
        }
        if stride == 0 {
            return Err(BufferError::InvalidStride);
        }
        self.attributes = attributes;
        self.interleaved = interleaved;
        self.stride = stride;
        self.configured = true;
        self.uploaded = false;
        self.data = Vec::new();
        self.vertex_count = 0;
        Ok(())
    }

    /// Push `data` to the device and record the vertex count it holds
    /// under the configured layout. Rejects (leaving the buffer
    /// untouched) a length that is not a whole number of vertices, so
    /// nothing is ever silently truncated. May only be called once the
    /// buffer is configured.
    pub fn upload(&mut self, data: Vec<Scalar>) -> (r: Result<(), BufferError>)
        requires
            old(self).wf(),
            old(self).configured,
        ensures
            final(self).wf(),
            r is Ok <==> data@.len() % (old(self).stride as nat) == 0,
            r is Err ==> *final(self) == *old(self) && r == Err::<(), BufferError>(
                BufferError::DataLengthNotMultipleOfStride,
            ),
            r is Ok ==> {
                &&& final(self).data@ == data@
                &&& final(self).uploaded
                &&& final(self).configured
                &&& final(self).vertex_count == data@.len() / (old(self).stride as nat)
                &&& final(self).attributes@ == old(self).attributes@
                &&& final(self).interleaved == old(self).interleaved
                &&& final(self).stride == old(self).stride
            },
    {
        if data.len() % self.stride != 0 {
            return Err(BufferError::DataLengthNotMultipleOfStride);
        }
        let count = data.len() / self.stride;
        proof {
            vstd::arithmetic::div_mod::lemma_fundamental_div_mod(
                data@.len() as int,
                self.stride as int,
            );
            vstd::arithmetic::mul::lemma_mul_is_commutative(
                self.stride as int,
                data@.len() as int / self.stride as int,
            );
        }
        self.data = data;
        self.vertex_count = count;
        self.uploaded = true;
        Ok(())
    }

    /// The draw call for the uploaded geometry: a triangle list over
    /// every uploaded vertex, issued against the currently active
    /// shader program (the caller's protocol must have activated one,
    /// which the context argument makes checkable).
    pub fn draw(&self, ctx: &RenderContext) -> (cmd: DrawArrays)
        requires
            self.wf(),
            self.uploaded,
            ctx.active_program is Some,
        ensures
            cmd.vertex_count == self.vertex_count,
    {
        DrawArrays { vertex_count: self.vertex_count }
    }
}

} // verus!
