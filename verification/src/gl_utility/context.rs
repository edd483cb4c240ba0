use vstd::prelude::*;

verus! {

/// The process-wide GPU state the engine depends on, modelled
/// explicitly instead of being left ambient: which shader program is
/// active. Draw and uniform operations require the right program to be
/// active, so the ordering rules of the pipeline become checkable
/// contracts instead of silent state leaks.
pub struct RenderContext {
    pub active_program: Option<u32>,
}

impl RenderContext {
    /// A fresh context: no program active yet.
    pub fn new() -> (c: RenderContext)
        ensures
            c.active_program is None,
    {
        RenderContext { active_program: None }
    }
}

/// An instruction to the GPU layer: make `program` the active shader
/// program.
#[derive(Clone, Copy, PartialEq, Eq, Structural, Debug)]
pub struct UseProgram {
    pub program: u32,
}

/// An instruction to the GPU layer: draw `vertex_count` vertices as a
/// triangle list, starting at the first vertex of the bound buffer.
#[derive(Clone, Copy, PartialEq, Eq, Structural, Debug)]
pub struct DrawArrays {
    pub vertex_count: usize,
}

} // verus!
