//! The abstract draw-instruction tree handed over by the widget toolkit
//! once per frame, and its translation into the per-pipeline vertex
//! accumulators.
use vstd::prelude::*;

use crate::font_cache::FontCache;
use crate::geometry::Color;
use crate::geometry::HorizontalAlignment;
use crate::geometry::Rect;
use crate::geometry::VerticalAlignment;
use crate::glyph::GlyphCache;
use crate::glyph::TextSection;
use crate::glyph::TextSectionView;
use crate::pass::IcedPass;
use crate::pipelines::image::ImagePipeline;
use crate::pipelines::image::batches_insert;
use crate::pipelines::image::table_bind;
use crate::pipelines::image::table_slot;
use crate::vertex::ImageVertex;
use crate::vertex::TriangleVertex;
use crate::vertex::quad_image_vertices;
use crate::vertex::quad_triangle_vertices;

verus! {

/// A weak reference to an externally owned texture, together with its
/// native pixel dimensions (used upstream for aspect-correct layout).
#[derive(Clone, Copy, Debug, PartialEq, Eq, Structural)]
pub enum ImageHandle {
    Texture { handle: u64, width: u32, height: u32 },
}

impl ImageHandle {
    /// The native pixel dimensions of the referenced texture.
    pub fn dimensions(&self) -> (d: (u32, u32))
        ensures
            self matches (ImageHandle::Texture { width, height, .. }) && d.0 == width && d.1
                == height,
    {
        match self {
            ImageHandle::Texture { width, height, .. } => (*width, *height),
        }
    }
}

impl From<(u64, u32, u32)> for ImageHandle {
    fn from(t: (u64, u32, u32)) -> (h: ImageHandle) {
        ImageHandle::Texture { handle: t.0, width: t.1, height: t.2 }
    }
}

impl vstd::std_specs::convert::FromSpecImpl<(u64, u32, u32)> for ImageHandle {
    open spec fn obeys_from_spec() -> bool {
        true
    }

    open spec fn from_spec(t: (u64, u32, u32)) -> ImageHandle {
        ImageHandle::Texture { handle: t.0, width: t.1, height: t.2 }
    }
}

/// Which externally owned textures are currently loaded and drawable.
///
/// The asset system owns texture lifetimes; the host fills this in for
/// the frame, and an `Image` whose handle does not resolve is skipped
/// silently and retried next frame.
pub struct TextureResolver {
    pub loaded: Vec<u64>,
}

impl TextureResolver {
    pub open spec fn resolves(self, handle: u64) -> bool {
        self.loaded@.contains(handle)
    }

    /// Whether the referenced texture can be drawn this frame.
    pub fn resolve(&self, handle: u64) -> (r: bool)
        ensures
            r == self.resolves(handle),
    {
        let n = self.loaded.len();
        for i in 0..n
            invariant
                n == self.loaded@.len(),
                forall|k: int| 0 <= k < i ==> self.loaded@[k] != handle,
        {
            if self.loaded[i] == handle {
                return true;
            }
        }
        false
    }
}

/// One abstract draw instruction.  A tree of these is produced fresh
/// each frame by the widget toolkit, walked once by `render`, and
/// discarded.
pub enum AmethystIcedPrimitive {
    /// A solid rectangle; without a color it is drawn opaque white.
    Quad(Rect, Option<Color>),
    /// A textured rectangle referencing an externally owned texture.
    Image(Rect, ImageHandle),
    /// A text run, rasterized through the glyph cache rather than
    /// directly into vertices.
    Text {
        bounds: Rect,
        content: String,
        size: u16,
        color: Color,
        horizontal_alignment: HorizontalAlignment,
        vertical_alignment: VerticalAlignment,
        font: String,
    },
    /// Children render strictly in sequence order: later children paint
    /// over earlier ones; there is no depth buffer.
    Group(Vec<AmethystIcedPrimitive>),
    /// Renders nothing; used for conditionally absent elements.
    Nothing,
}

/// Wrapper struct meant to keep a frame's primitive tree, and the layout
/// hash it was produced under, together in one place.
pub struct IcedPrimitives(pub Option<AmethystIcedPrimitive>, pub u64);

impl Default for IcedPrimitives {
    fn default() -> (r: IcedPrimitives)
        ensures
            r.0 is None,
            r.1 == 0,
    {
        IcedPrimitives(None, 0)
    }
}

/// The image pipeline's frame state as one mathematical value.
#[verifier::ext_equal]
pub struct ImageState {
    pub table: Seq<u64>,
    pub batches: Seq<(int, Seq<ImageVertex>)>,
}

impl ImagePipeline {
    /// The binding table and batches as one value.
    pub open spec fn state(self) -> ImageState {
        ImageState { table: self.textures@, batches: self.batches_view() }
    }
}

impl AmethystIcedPrimitive {
    /// Every rectangle of the tree has computable corners.
    pub open spec fn wf(self) -> bool
        decreases self,
    {
        match self {
            AmethystIcedPrimitive::Quad(bounds, _) => bounds.wf(),
            AmethystIcedPrimitive::Image(bounds, _) => bounds.wf(),
            AmethystIcedPrimitive::Text { bounds, .. } => bounds.wf(),
            AmethystIcedPrimitive::Group(children) => AmethystIcedPrimitive::wf_children(
                children@,
            ),
            AmethystIcedPrimitive::Nothing => true,
        }
    }

    pub open spec fn wf_children(s: Seq<AmethystIcedPrimitive>) -> bool
        decreases s,
    {
        if s.len() == 0 {
            true
        } else {
            AmethystIcedPrimitive::wf_children(s.drop_last()) && s.last().wf()
        }
    }

    /// The triangle-pipeline vertices this tree contributes, in paint
    /// order: six per quad, color defaulting to opaque white.
    pub open spec fn triangle_output(self) -> Seq<TriangleVertex>
        decreases self,
    {
        match self {
            AmethystIcedPrimitive::Quad(bounds, color) => quad_triangle_vertices(
                bounds,
                match color {
                    Some(c) => c,
                    None => Color::spec_white(),
                },
            ),
            AmethystIcedPrimitive::Group(children) => {
                AmethystIcedPrimitive::triangle_output_children(children@)
            },
            _ => Seq::empty(),
        }
    }

    pub open spec fn triangle_output_children(s: Seq<AmethystIcedPrimitive>) -> Seq<TriangleVertex>
        decreases s,
    {
        if s.len() == 0 {
            Seq::empty()
        } else {
            AmethystIcedPrimitive::triangle_output_children(s.drop_last())
                + s.last().triangle_output()
        }
    }

    /// The image pipeline state after rendering this tree into `st`:
    /// every image whose handle resolves binds its texture (idempotently
    /// within the frame) and appends six vertices under that slot;
    /// unresolved images change nothing.
    pub open spec fn image_output(self, res: TextureResolver, st: ImageState) -> ImageState
        decreases self,
    {
        match self {
            AmethystIcedPrimitive::Image(bounds, handle) => {
                match handle {
                    ImageHandle::Texture { handle: h, .. } => {
                        if res.resolves(h) {
                            ImageState {
                                table: table_bind(st.table, h),
                                batches: batches_insert(
                                    st.batches,
                                    table_slot(st.table, h),
                                    quad_image_vertices(bounds),
                                ),
                            }
                        } else {
                            st
                        }
                    },
                }
            },
            AmethystIcedPrimitive::Group(children) => {
                AmethystIcedPrimitive::image_output_children(children@, res, st)
            },
            _ => st,
        }
    }

    pub open spec fn image_output_children(
        s: Seq<AmethystIcedPrimitive>,
        res: TextureResolver,
        st: ImageState,
    ) -> ImageState
        decreases s,
    {
        if s.len() == 0 {
            st
        } else {
            s.last().image_output(
                res,
                AmethystIcedPrimitive::image_output_children(s.drop_last(), res, st),
            )
        }
    }

    /// The sections this tree queues for the glyph cache, in paint
    /// order.  A text run resolves its font name through the font cache,
    /// falling back to the default font id 0 while the font is unknown
    /// or pending; vertical alignment is fixed to top (a documented
    /// limitation of this pipeline).
    pub open spec fn text_output(self, fonts: FontCache) -> Seq<TextSectionView>
        decreases self,
    {
        match self {
            AmethystIcedPrimitive::Text {
                bounds,
                content,
                size,
                color,
                horizontal_alignment,
                vertical_alignment: _,
                font,
            } => {
                seq![
                    TextSectionView {
                        content: content@,
                        size: size,
                        color: color,
                        x: bounds.x,
                        y: bounds.y,
                        width: bounds.width,
                        height: bounds.height,
                        h_align: horizontal_alignment,
                        font_id: match fonts.spec_get_id(font@) {
                            Some(id) => id as int,
                            None => 0,
                        },
                    },
                ]
            },
            AmethystIcedPrimitive::Group(children) => {
                AmethystIcedPrimitive::text_output_children(children@, fonts)
            },
            _ => Seq::empty(),
        }
    }

    pub open spec fn text_output_children(
        s: Seq<AmethystIcedPrimitive>,
        fonts: FontCache,
    ) -> Seq<TextSectionView>
        decreases s,
    {
        if s.len() == 0 {
            Seq::empty()
        } else {
            AmethystIcedPrimitive::text_output_children(s.drop_last(), fonts) + s.last().text_output(
                fonts,
            )
        }
    }

    /// Walks the tree once, appending into the pass's pipelines: quads
    /// into the triangle accumulator, resolvable images into the image
    /// batches, and text runs into the glyph cache's queue.  `None`
    /// renders nothing, and a `Group`'s children render in sequence
    /// order.
    pub fn render(
        &self,
        pass: &mut IcedPass,
        resolver: &TextureResolver,
        fonts: &FontCache,
        glyphs: &mut GlyphCache,
    )
        requires
            self.wf(),
            fonts.wf(),
            old(pass).image_pipeline.wf(),
        ensures
            final(pass).image_pipeline.wf(),
            final(pass).triangle_pipeline.vertices@ == old(pass).triangle_pipeline.vertices@
                + self.triangle_output(),
            final(pass).image_pipeline.state() == self.image_output(
                *resolver,
                old(pass).image_pipeline.state(),
            ),
            final(glyphs)@.pending == old(glyphs)@.pending + self.text_output(*fonts),
            final(glyphs)@.dirty == (old(glyphs)@.dirty || self.text_output(*fonts).len() > 0),
            final(glyphs)@.last == old(glyphs)@.last,
            final(pass).triangle_pipeline.transform == old(pass).triangle_pipeline.transform,
            final(pass).image_pipeline.transform == old(pass).image_pipeline.transform,
            final(pass).text_pipeline == old(pass).text_pipeline,
        decreases *self,
    {
        match self {
            AmethystIcedPrimitive::Group(children) => {
                let n = children.len();
                for i in 0..n
                    invariant
                        n == children@.len(),
                        *self == AmethystIcedPrimitive::Group(*children),
                        AmethystIcedPrimitive::wf_children(children@),
                        fonts.wf(),
                        pass.image_pipeline.wf(),
                        pass.triangle_pipeline.vertices@ == old(
                            pass,
                        ).triangle_pipeline.vertices@
                            + AmethystIcedPrimitive::triangle_output_children(
                            children@.take(i as int),
                        ),
                        pass.image_pipeline.state()
                            == AmethystIcedPrimitive::image_output_children(
                            children@.take(i as int),
                            *resolver,
                            old(pass).image_pipeline.state(),
                        ),
                        glyphs@.pending == old(glyphs)@.pending
                            + AmethystIcedPrimitive::text_output_children(
                            children@.take(i as int),
                            *fonts,
                        ),
                        glyphs@.dirty == (old(glyphs)@.dirty
                            || AmethystIcedPrimitive::text_output_children(
                            children@.take(i as int),
                            *fonts,
                        ).len() > 0),
                        glyphs@.last == old(glyphs)@.last,
                        pass.triangle_pipeline.transform == old(pass).triangle_pipeline.transform,
                        pass.image_pipeline.transform == old(pass).image_pipeline.transform,
                        pass.text_pipeline == old(pass).text_pipeline,
                    decreases n - i,
                {
                    proof {
                        lemma_wf_children_index(children@, i as int);
                        assert(decreases_to!(*self => (*self)->Group_0));
                        assert((*self)->Group_0 == *children);
                        assert(decreases_to!(*children => children@));
                        assert(decreases_to!(children@ => children@[i as int]));
                        assert(decreases_to!(*self => children@[i as int]));
                    }
                    let child = &children[i];
                    child.render(pass, resolver, fonts, glyphs);
                    proof {
                        lemma_children_take_step(children@, i as int);
                    }
                }
                proof {
                    assert(children@.take(n as int) =~= children@);
                }
            },
            AmethystIcedPrimitive::Quad(bounds, color) => {
                let c = match color {
                    Some(c) => *c,
                    None => Color::white(),
                };
                pass.triangle_pipeline.push_quad(bounds, c);
            },
            AmethystIcedPrimitive::Image(bounds, handle) => {
                match handle {
                    ImageHandle::Texture { handle: h, .. } => {
                        if resolver.resolve(*h) {
                            let slot = pass.image_pipeline.bind(*h);
                            pass.image_pipeline.insert_quad(slot, bounds);
                        }
                    },
                }
            },
            AmethystIcedPrimitive::Text {
                bounds,
                content,
                size,
                color,
                horizontal_alignment,
                vertical_alignment: _,
                font,
            } => {
                let font_id = match fonts.get_id(font) {
                    Some(id) => id,
                    None => 0,
                };
                glyphs.queue(
                    TextSection {
                        content: content.clone(),
                        size: *size,
                        color: *color,
                        x: bounds.x,
                        y: bounds.y,
                        width: bounds.width,
                        height: bounds.height,
                        h_align: *horizontal_alignment,
                        font_id,
                    },
                );
            },
            AmethystIcedPrimitive::Nothing => {},
        }
    }
}

/// A prefix of a well-formed child list is well-formed up to its next
/// element.
proof fn lemma_wf_children_index(s: Seq<AmethystIcedPrimitive>, i: int)
    requires
        AmethystIcedPrimitive::wf_children(s),
        0 <= i < s.len(),
    ensures
        s[i].wf(),
    decreases s.len(),
{
    if i == s.len() - 1 {
    } else {
        lemma_wf_children_index(s.drop_last(), i);
        assert(s.drop_last()[i] == s[i]);
    }
}

/// Extends each per-child output by one more child.
proof fn lemma_children_take_step(s: Seq<AmethystIcedPrimitive>, i: int)
    requires
        0 <= i < s.len(),
    ensures
        forall|res: TextureResolver, st: ImageState|
            #[trigger] AmethystIcedPrimitive::image_output_children(s.take(i + 1), res, st)
                == s[i].image_output(
                res,
                AmethystIcedPrimitive::image_output_children(s.take(i), res, st),
            ),
        AmethystIcedPrimitive::triangle_output_children(s.take(i + 1))
            == AmethystIcedPrimitive::triangle_output_children(s.take(i))
            + s[i].triangle_output(),
        forall|fonts: FontCache|
            #[trigger] AmethystIcedPrimitive::text_output_children(s.take(i + 1), fonts)
                == AmethystIcedPrimitive::text_output_children(s.take(i), fonts) + s[i].text_output(
                fonts,
            ),
{
    assert(s.take(i + 1).drop_last() =~= s.take(i));
    assert(s.take(i + 1).last() == s[i]);
}

} // verus!
