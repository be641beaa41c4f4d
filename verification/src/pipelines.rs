//! Per-pipeline renderer state: a CPU vertex accumulator per pipeline and,
//! for the image and text pipelines, the frame-scoped texture binding
//! table.  The GPU half (pipeline objects, buffers, encoders) lives with
//! the host; these types decide exactly what it must draw.
use vstd::prelude::*;

pub mod image;
pub mod text;
pub mod triangle;

verus! {

/// One GPU draw command of the per-frame plan.
///
/// A draw call covers exactly the accumulated vertex count of its
/// pipeline; a pipeline with nothing accumulated contributes no call at
/// all.
#[derive(Clone, Copy, Debug, PartialEq, Eq, Structural)]
pub enum DrawCall {
    /// One non-indexed draw over the whole triangle-pipeline buffer.
    Triangle { vertex_count: usize },
    /// One draw of a contiguous run of image vertices under one bound
    /// texture slot.
    Image { texture_slot: usize, first_vertex: usize, vertex_count: usize },
    /// One draw over the whole text-pipeline buffer with the glyph atlas
    /// bound.
    Text { texture_slot: usize, vertex_count: usize },
}

} // verus!
