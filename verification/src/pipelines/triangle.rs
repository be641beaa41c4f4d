//! The solid-triangle pipeline: quads expand here into pairs of triangles
//! with one color broadcast to all six vertices.
use vstd::prelude::*;

use crate::geometry::Color;
use crate::geometry::Rect;
use crate::pipelines::DrawCall;
use crate::vertex::TriangleVertex;
use crate::vertex::quad_triangle_vertices;

verus! {

/// The per-pipeline transform data.
///
/// The host derives a fixed orthographic projection from these
/// framebuffer dimensions when it uploads the uniform buffer; it is
/// computed once at pipeline creation, never per quad, so a framebuffer
/// resize requires re-creating the pipeline.
#[derive(Clone, Copy, Debug, PartialEq, Eq, Structural)]
pub struct TriangleUniform {
    pub fb_width: u32,
    pub fb_height: u32,
}

/// CPU-side state of the solid-triangle pipeline: the vertex accumulator
/// for the current frame and the creation-time transform.
pub struct TrianglePipeline {
    pub vertices: Vec<TriangleVertex>,
    pub transform: TriangleUniform,
}

impl TrianglePipeline {
    /// A fresh pipeline for a framebuffer of the given dimensions, with an
    /// empty accumulator.
    pub fn create_pipeline(fb_width: u32, fb_height: u32) -> (p: TrianglePipeline)
        ensures
            p.vertices@ == Seq::<TriangleVertex>::empty(),
            p.transform == (TriangleUniform { fb_width, fb_height }),
    {
        TrianglePipeline { vertices: Vec::new(), transform: TriangleUniform { fb_width, fb_height } }
    }

    /// Clears the accumulator at the start of a frame; the transform is
    /// creation-time state and survives.
    pub fn reset(&mut self)
        ensures
            final(self).vertices@ == Seq::<TriangleVertex>::empty(),
            final(self).transform == old(self).transform,
    {
        self.vertices = Vec::new();
    }

    /// Appends the six vertices of `bounds`, all carrying `color`.
    pub fn push_quad(&mut self, bounds: &Rect, color: Color)
        requires
            bounds.wf(),
        ensures
            final(self).vertices@ == old(self).vertices@ + quad_triangle_vertices(*bounds, color),
            final(self).transform == old(self).transform,
    {
        let x0 = bounds.x;
        let y0 = bounds.y;
        let x1 = bounds.right();
        let y1 = bounds.bottom();
        self.vertices.push(TriangleVertex { x: x0, y: y0, color });
        self.vertices.push(TriangleVertex { x: x1, y: y0, color });
        self.vertices.push(TriangleVertex { x: x1, y: y1, color });
        self.vertices.push(TriangleVertex { x: x0, y: y0, color });
        self.vertices.push(TriangleVertex { x: x0, y: y1, color });
        self.vertices.push(TriangleVertex { x: x1, y: y1, color });
        assert(self.vertices@ =~= old(self).vertices@ + quad_triangle_vertices(*bounds, color));
    }

    /// The draw call this pipeline contributes to the frame: one call
    /// covering the accumulated vertices, or none at all when nothing was
    /// accumulated.
    pub fn draw(&self) -> (c: Option<DrawCall>)
        ensures
            c == self.spec_draw(),
    {
        if self.vertices.len() == 0 {
            None
        } else {
            Some(DrawCall::Triangle { vertex_count: self.vertices.len() })
        }
    }

    pub open spec fn spec_draw(self) -> Option<DrawCall> {
        if self.vertices@.len() == 0 {
            None
        } else {
            Some(DrawCall::Triangle { vertex_count: self.vertices@.len() as usize })
        }
    }
}

} // verus!
