//! The render pass: the three pipeline states together, the per-frame
//! prepare step (reset, then translate the frame's primitive tree), and
//! the draw plan the host's encoder executes.
use vstd::prelude::*;

use crate::font_cache::FontCache;
use crate::glyph::GlyphAtlas;
use crate::glyph::GlyphCache;
use crate::glyph::TextSectionView;
use crate::glyph::TextVertexContainer;
use crate::pipelines::DrawCall;
use crate::pipelines::image::ImagePipeline;
use crate::pipelines::image::batches_draw_calls;
use crate::pipelines::image::batches_vertex_total;
use crate::pipelines::text::TextPipeline;
use crate::pipelines::triangle::TrianglePipeline;
use crate::primitive::AmethystIcedPrimitive;
use crate::primitive::IcedPrimitives;
use crate::primitive::ImageState;
use crate::primitive::TextureResolver;
use crate::vertex::TriangleVertex;

verus! {

/// Description of the pass: what is needed to build one.
#[derive(Clone, Copy, Debug, PartialEq, Eq, Structural, Default)]
pub struct IcedPassDesc;

/// The pass: one renderer state per pipeline.
pub struct IcedPass {
    pub triangle_pipeline: TrianglePipeline,
    pub image_pipeline: ImagePipeline,
    pub text_pipeline: TextPipeline,
}

/// The image pipeline state of a pass that has just been reset.
pub open spec fn empty_image_state() -> ImageState {
    ImageState { table: Seq::empty(), batches: Seq::empty() }
}

/// The triangle output of an optional primitive tree.
pub open spec fn opt_triangle_output(p: Option<AmethystIcedPrimitive>) -> Seq<TriangleVertex> {
    match p {
        Some(prim) => prim.triangle_output(),
        None => Seq::empty(),
    }
}

/// The image output of an optional primitive tree.
pub open spec fn opt_image_output(
    p: Option<AmethystIcedPrimitive>,
    res: TextureResolver,
    st: ImageState,
) -> ImageState {
    match p {
        Some(prim) => prim.image_output(res, st),
        None => st,
    }
}

/// The queued sections of an optional primitive tree.
pub open spec fn opt_text_output(
    p: Option<AmethystIcedPrimitive>,
    fonts: FontCache,
) -> Seq<TextSectionView> {
    match p {
        Some(prim) => prim.text_output(fonts),
        None => Seq::empty(),
    }
}

/// Whether an optional primitive tree is well-formed.
pub open spec fn opt_wf(p: Option<AmethystIcedPrimitive>) -> bool {
    match p {
        Some(prim) => prim.wf(),
        None => true,
    }
}

/// The sequence of an optional draw call.
pub open spec fn opt_calls(c: Option<DrawCall>) -> Seq<DrawCall> {
    match c {
        Some(call) => seq![call],
        None => Seq::empty(),
    }
}

impl IcedPassDesc {
    /// Builds the pass for a framebuffer of the given dimensions: three
    /// fresh pipelines, each with its transform fixed to the dimensions.
    pub fn build(self, framebuffer_width: u32, framebuffer_height: u32) -> (pass: IcedPass)
        ensures
            pass.triangle_pipeline.vertices@ == Seq::<TriangleVertex>::empty(),
            pass.triangle_pipeline.transform.fb_width == framebuffer_width,
            pass.triangle_pipeline.transform.fb_height == framebuffer_height,
            pass.image_pipeline.state() == empty_image_state(),
            pass.image_pipeline.wf(),
            pass.image_pipeline.transform.fb_width == framebuffer_width,
            pass.image_pipeline.transform.fb_height == framebuffer_height,
            pass.text_pipeline.transform.fb_width == framebuffer_width,
            pass.text_pipeline.transform.fb_height == framebuffer_height,
            pass.text_pipeline.glyph_atlas_id is None,
    {
        let pass = IcedPass {
            triangle_pipeline: TrianglePipeline::create_pipeline(
                framebuffer_width,
                framebuffer_height,
            ),
            image_pipeline: ImagePipeline::create_pipeline(framebuffer_width, framebuffer_height),
            text_pipeline: TextPipeline::create_pipeline(framebuffer_width, framebuffer_height),
        };
        proof {
            assert(pass.image_pipeline.state() =~= empty_image_state());
        }
        pass
    }
}

impl IcedPass {
    /// The whole frame's draw plan: the triangle call first, then the
    /// image batches back to back, then the text call, so backgrounds
    /// and controls paint first, images next, text on top.
    pub open spec fn spec_draw_inline(self, text_len: int) -> Seq<DrawCall> {
        opt_calls(self.triangle_pipeline.spec_draw()) + batches_draw_calls(
            self.image_pipeline.batches_view(),
            0,
        ) + opt_calls(self.text_pipeline.spec_draw(text_len))
    }

    /// One frame's prepare step: clears the triangle accumulator and the
    /// image pipeline's frame state, binds the glyph atlas if it exists,
    /// then consumes the frame's primitive tree (if any) and translates
    /// it into the pipelines and the glyph queue.
    pub fn prepare(
        &mut self,
        primitives: &mut IcedPrimitives,
        resolver: &TextureResolver,
        fonts: &FontCache,
        glyphs: &mut GlyphCache,
        atlas: &GlyphAtlas,
    )
        requires
            opt_wf(old(primitives).0),
            fonts.wf(),
        ensures
            final(self).image_pipeline.wf(),
            final(self).triangle_pipeline.vertices@ == opt_triangle_output(old(primitives).0),
            final(self).image_pipeline.state() == opt_image_output(
                old(primitives).0,
                *resolver,
                empty_image_state(),
            ),
            final(glyphs)@.pending == old(glyphs)@.pending + opt_text_output(
                old(primitives).0,
                *fonts,
            ),
            final(glyphs)@.dirty == (old(glyphs)@.dirty || opt_text_output(
                old(primitives).0,
                *fonts,
            ).len() > 0),
            final(glyphs)@.last == old(glyphs)@.last,
            final(self).triangle_pipeline.transform == old(self).triangle_pipeline.transform,
            final(self).image_pipeline.transform == old(self).image_pipeline.transform,
            final(self).text_pipeline.transform == old(self).text_pipeline.transform,
            final(self).text_pipeline.glyph_atlas_id == (if old(
                self,
            ).text_pipeline.glyph_atlas_id is Some {
                old(self).text_pipeline.glyph_atlas_id
            } else if atlas.0 is Some {
                Some(0usize)
            } else {
                Option::<usize>::None
            }),
            final(primitives).0 is None,
            final(primitives).1 == old(primitives).1,
    {
        self.triangle_pipeline.reset();
        self.image_pipeline.reset();
        self.text_pipeline.bind_texture_id(atlas);
        let taken = primitives.0.take();
        match taken {
            Some(prim) => {
                prim.render(self, resolver, fonts, glyphs);
            },
            None => {
                proof {
                    assert(old(glyphs)@.pending + opt_text_output(old(primitives).0, *fonts)
                        =~= old(glyphs)@.pending);
                }
            },
        }
    }

    /// The draw calls for the frame, in the fixed paint order triangle,
    /// image, text; a pipeline with nothing accumulated issues none.
    pub fn draw_inline(&self, text: &TextVertexContainer) -> (calls: Vec<DrawCall>)
        requires
            batches_vertex_total(self.image_pipeline.batches_view()) <= usize::MAX,
        ensures
            calls@ == self.spec_draw_inline(text.0@.len() as int),
    {
        let mut calls: Vec<DrawCall> = Vec::new();
        match self.triangle_pipeline.draw() {
            Some(c) => calls.push(c),
            None => {},
        }
        let mut image_calls = self.image_pipeline.draw();
        calls.append(&mut image_calls);
        match self.text_pipeline.draw(text) {
            Some(c) => calls.push(c),
            None => {},
        }
        proof {
            assert(calls@ =~= self.spec_draw_inline(text.0@.len() as int));
        }
        calls
    }
}

} // verus!
