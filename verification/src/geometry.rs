//! Pixel-space geometry shared by every pipeline: rectangles, colors and
//! text alignment.
use vstd::prelude::*;

verus! {

/// An axis-aligned rectangle in absolute pixel coordinates.
///
/// `x` and `y` are the top-left corner; `width` and `height` extend towards
/// the bottom-right.
#[derive(Clone, Copy, Debug, PartialEq, Eq, Structural)]
pub struct Rect {
    pub x: i32,
    pub y: i32,
    pub width: i32,
    pub height: i32,
}

impl Rect {
    /// A rectangle whose corners can be computed without overflow.
    pub open spec fn wf(self) -> bool {
        &&& 0 <= self.width
        &&& 0 <= self.height
        &&& self.x + self.width <= i32::MAX
        &&& self.y + self.height <= i32::MAX
    }

    pub open spec fn spec_right(self) -> int {
        self.x + self.width
    }

    pub open spec fn spec_bottom(self) -> int {
        self.y + self.height
    }

    /// The x coordinate of the right edge.
    pub fn right(&self) -> (r: i32)
        requires
            self.wf(),
        ensures
            r == self.spec_right(),
    {
        self.x + self.width
    }

    /// The y coordinate of the bottom edge.
    pub fn bottom(&self) -> (r: i32)
        requires
            self.wf(),
        ensures
            r == self.spec_bottom(),
    {
        self.y + self.height
    }
}

/// An RGBA color with 8-bit channels.
#[derive(Clone, Copy, Debug, PartialEq, Eq, Structural)]
pub struct Color {
    pub r: u8,
    pub g: u8,
    pub b: u8,
    pub a: u8,
}

impl Color {
    /// Opaque white, the fallback for quads drawn without an explicit color.
    pub fn white() -> (c: Color)
        ensures
            c == Color::spec_white(),
    {
        Color { r: 255, g: 255, b: 255, a: 255 }
    }

    pub open spec fn spec_white() -> Color {
        Color { r: 255, g: 255, b: 255, a: 255 }
    }
}

/// Horizontal alignment of a text run inside its bounds.
#[derive(Clone, Copy, Debug, PartialEq, Eq, Structural)]
pub enum HorizontalAlignment {
    Left,
    Center,
    Right,
}

/// Vertical alignment of a text run inside its bounds.
#[derive(Clone, Copy, Debug, PartialEq, Eq, Structural)]
pub enum VerticalAlignment {
    Top,
    Center,
    Bottom,
}

} // verus!
