//! CPU-side vertex records, one per pipeline, and the expansion of a
//! rectangle into the two triangles that every pipeline shares.
//!
//! The winding convention is fixed across quads, images and glyphs:
//! top-left, top-right, bottom-right for the first triangle, then
//! top-left, bottom-left, bottom-right for the second.
use vstd::prelude::*;

use crate::geometry::Color;
use crate::geometry::Rect;

verus! {

/// A solid-color vertex for the triangle pipeline.
#[derive(Clone, Copy, Debug, PartialEq, Eq, Structural)]
pub struct TriangleVertex {
    pub x: i32,
    pub y: i32,
    pub color: Color,
}

/// A textured vertex for the image pipeline; `u` and `v` are the corner
/// coordinates of the unit UV square, so each is 0 or 1.
#[derive(Clone, Copy, Debug, PartialEq, Eq, Structural)]
pub struct ImageVertex {
    pub x: i32,
    pub y: i32,
    pub u: u8,
    pub v: u8,
}

/// A glyph vertex for the text pipeline; `u` and `v` address the glyph
/// atlas in pixels.
#[derive(Clone, Copy, Debug, PartialEq, Eq, Structural)]
pub struct TextVertex {
    pub x: i32,
    pub y: i32,
    pub u: u32,
    pub v: u32,
    pub color: Color,
}

/// The six solid-color vertices covering `r`, each carrying `c`.
pub open spec fn quad_triangle_vertices(r: Rect, c: Color) -> Seq<TriangleVertex> {
    let x0 = r.x as int;
    let y0 = r.y as int;
    let x1 = r.spec_right();
    let y1 = r.spec_bottom();
    seq![
        TriangleVertex { x: x0 as i32, y: y0 as i32, color: c },
        TriangleVertex { x: x1 as i32, y: y0 as i32, color: c },
        TriangleVertex { x: x1 as i32, y: y1 as i32, color: c },
        TriangleVertex { x: x0 as i32, y: y0 as i32, color: c },
        TriangleVertex { x: x0 as i32, y: y1 as i32, color: c },
        TriangleVertex { x: x1 as i32, y: y1 as i32, color: c },
    ]
}

/// The six textured vertices covering `r`, with UV corners running over
/// the unit square whatever the size of `r`.
pub open spec fn quad_image_vertices(r: Rect) -> Seq<ImageVertex> {
    let x0 = r.x as int;
    let y0 = r.y as int;
    let x1 = r.spec_right();
    let y1 = r.spec_bottom();
    seq![
        ImageVertex { x: x0 as i32, y: y0 as i32, u: 0, v: 0 },
        ImageVertex { x: x1 as i32, y: y0 as i32, u: 1, v: 0 },
        ImageVertex { x: x1 as i32, y: y1 as i32, u: 1, v: 1 },
        ImageVertex { x: x0 as i32, y: y0 as i32, u: 0, v: 0 },
        ImageVertex { x: x0 as i32, y: y1 as i32, u: 0, v: 1 },
        ImageVertex { x: x1 as i32, y: y1 as i32, u: 1, v: 1 },
    ]
}

} // verus!
