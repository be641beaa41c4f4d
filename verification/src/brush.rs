//! The boundary to the glyph rasterizer, the `glyph_brush` crate: the
//! type declarations and the thin trusted wrappers for the two calls the
//! verified logic makes in the middle of its work.
//!
//! The rasterizer value itself is opaque here; everything the library
//! decides is decided over its own state, with the rasterizer's answers
//! taken as arguments.
use vstd::prelude::*;

use crate::glyph::GlyphAtlas;

verus! {

#[verifier::external_type_specification]
#[verifier::external_body]
#[verifier::reject_recursive_types(V)]
#[verifier::reject_recursive_types(H)]
pub struct ExGlyphBrush<'font, V, H>(glyph_brush::GlyphBrush<'font, V, H>);

#[verifier::external_type_specification]
#[verifier::external_body]
pub struct ExFont<'a>(glyph_brush::rusttype::Font<'a>);

/// Relies on `glyph_brush::GlyphBrush::add_font`: registers one more
/// font with the rasterizer and returns the raw index of the fresh
/// `FontId` under which later sections can reference it.
#[verifier::external_body]
pub(crate) fn brush_add_font<'font, V: Clone + 'static, H: std::hash::BuildHasher>(
    brush: &mut glyph_brush::GlyphBrush<'font, V, H>,
    font: glyph_brush::rusttype::Font<'font>,
) -> (id: usize) {
    brush.add_font(font).0
}

/// Relies on `glyph_brush::GlyphBrush::texture_dimensions`: reports the
/// rasterizer's current atlas cache dimensions in pixels.
#[verifier::external_body]
pub(crate) fn brush_texture_dimensions<'font, V: Clone + 'static, H: std::hash::BuildHasher>(
    brush: &glyph_brush::GlyphBrush<'font, V, H>,
) -> (dims: (u32, u32)) {
    brush.texture_dimensions()
}

/// Creates the glyph atlas lazily, sized to the dimensions the
/// rasterizer currently asks for; once the atlas exists its stored
/// dimensions win and nothing is created, whatever the rasterizer now
/// reports.
pub fn ensure_atlas<'font, V: Clone + 'static, H: std::hash::BuildHasher>(
    atlas: &mut GlyphAtlas,
    brush: &glyph_brush::GlyphBrush<'font, V, H>,
) -> (created: Option<(u32, u32)>)
    ensures
        old(atlas).0 is Some ==> final(atlas).0 == old(atlas).0 && created is None,
        old(atlas).0 is None ==> final(atlas).0 is Some && created == final(atlas).0,
{
    let dims = brush_texture_dimensions(brush);
    atlas.ensure(dims.0, dims.1)
}

} // verus!
