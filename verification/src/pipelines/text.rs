//! The glyph-text pipeline: its only texture is the glyph atlas, bound
//! once when the atlas exists, and its vertex data comes from the glyph
//! cache's container rather than from the tree walk.
use vstd::prelude::*;

use crate::glyph::GlyphAtlas;
use crate::glyph::TextVertexContainer;
use crate::pipelines::DrawCall;

verus! {

/// The per-pipeline transform data; see `TriangleUniform`.
#[derive(Clone, Copy, Debug, PartialEq, Eq, Structural)]
pub struct TextUniform {
    pub fb_width: u32,
    pub fb_height: u32,
}

/// CPU-side state of the text pipeline.
pub struct TextPipeline {
    pub transform: TextUniform,
    /// The slot of the glyph atlas in this pipeline's binding table, once
    /// bound; the atlas is this pipeline's only texture, so the slot is 0.
    pub glyph_atlas_id: Option<usize>,
}

impl TextPipeline {
    /// A fresh pipeline for a framebuffer of the given dimensions; the
    /// atlas is not bound yet.
    pub fn create_pipeline(fb_width: u32, fb_height: u32) -> (p: TextPipeline)
        ensures
            p.transform == (TextUniform { fb_width, fb_height }),
            p.glyph_atlas_id is None,
    {
        TextPipeline { transform: TextUniform { fb_width, fb_height }, glyph_atlas_id: None }
    }

    /// Binds the glyph atlas once it exists.  Already bound: nothing to
    /// do.  Atlas not created yet: stay unbound and retry next frame
    /// rather than fail the frame.
    pub fn bind_texture_id(&mut self, atlas: &GlyphAtlas)
        ensures
            final(self).transform == old(self).transform,
            final(self).glyph_atlas_id == (if old(self).glyph_atlas_id is Some {
                old(self).glyph_atlas_id
            } else if atlas.0 is Some {
                Some(0usize)
            } else {
                Option::<usize>::None
            }),
    {
        if self.glyph_atlas_id.is_some() {
            return ;
        }
        if atlas.0.is_some() {
            self.glyph_atlas_id = Some(0);
        }
    }

    /// The draw call this pipeline contributes: the whole glyph vertex
    /// list under the atlas binding, or none while the atlas is unbound
    /// or no glyph is visible.
    pub fn draw(&self, text: &TextVertexContainer) -> (c: Option<DrawCall>)
        ensures
            c == self.spec_draw(text.0@.len() as int),
    {
        match self.glyph_atlas_id {
            Option::None => None,
            Option::Some(slot) => {
                if text.0.len() == 0 {
                    None
                } else {
                    Some(DrawCall::Text { texture_slot: slot, vertex_count: text.0.len() })
                }
            },
        }
    }

    pub open spec fn spec_draw(self, text_len: int) -> Option<DrawCall> {
        match self.glyph_atlas_id {
            Option::None => None,
            Option::Some(slot) => {
                if text_len == 0 {
                    None
                } else {
                    Some(DrawCall::Text { texture_slot: slot, vertex_count: text_len as usize })
                }
            },
        }
    }
}

} // verus!
