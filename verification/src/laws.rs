//! The library-wide laws: what the translation and the glyph cache
//! guarantee for every input, proved once here over the same spec
//! functions the executable contracts use.
use vstd::prelude::*;

use crate::font_cache::FontCache;
use crate::geometry::Color;
use crate::geometry::Rect;
use crate::glyph::GlyphCacheView;
use crate::glyph::redraw_case;
use crate::pass::IcedPass;
use crate::pipelines::image::batches_draw_calls;
use crate::primitive::AmethystIcedPrimitive;
use crate::primitive::ImageHandle;
use crate::primitive::ImageState;
use crate::primitive::TextureResolver;
use crate::vertex::TriangleVertex;
use crate::vertex::quad_image_vertices;
use crate::vertex::quad_triangle_vertices;

verus! {

/// A quad translates to exactly six vertices forming two triangles that
/// cover its bounds corner to corner, each vertex carrying the quad's
/// color (opaque white when none was given).
pub proof fn lemma_quad_translation(bounds: Rect, color: Option<Color>)
    requires
        bounds.wf(),
    ensures
        AmethystIcedPrimitive::Quad(bounds, color).triangle_output() == quad_triangle_vertices(
            bounds,
            match color {
                Some(c) => c,
                None => Color::spec_white(),
            },
        ),
        quad_triangle_vertices(
            bounds,
            match color {
                Some(c) => c,
                None => Color::spec_white(),
            },
        ).len() == 6,
        forall|i: int|
            0 <= i < 6 ==> (#[trigger] AmethystIcedPrimitive::Quad(
                bounds,
                color,
            ).triangle_output()[i]).color == (match color {
                Some(c) => c,
                None => Color::spec_white(),
            }),
        AmethystIcedPrimitive::Quad(bounds, color).triangle_output()[0] == (TriangleVertex {
            x: bounds.x,
            y: bounds.y,
            color: AmethystIcedPrimitive::Quad(bounds, color).triangle_output()[0].color,
        }),
        AmethystIcedPrimitive::Quad(bounds, color).triangle_output()[1].x == bounds.x
            + bounds.width,
        AmethystIcedPrimitive::Quad(bounds, color).triangle_output()[1].y == bounds.y,
        AmethystIcedPrimitive::Quad(bounds, color).triangle_output()[2].x == bounds.x
            + bounds.width,
        AmethystIcedPrimitive::Quad(bounds, color).triangle_output()[2].y == bounds.y
            + bounds.height,
        AmethystIcedPrimitive::Quad(bounds, color).triangle_output()[3].x == bounds.x,
        AmethystIcedPrimitive::Quad(bounds, color).triangle_output()[3].y == bounds.y,
        AmethystIcedPrimitive::Quad(bounds, color).triangle_output()[4].x == bounds.x,
        AmethystIcedPrimitive::Quad(bounds, color).triangle_output()[4].y == bounds.y
            + bounds.height,
        AmethystIcedPrimitive::Quad(bounds, color).triangle_output()[5].x == bounds.x
            + bounds.width,
        AmethystIcedPrimitive::Quad(bounds, color).triangle_output()[5].y == bounds.y
            + bounds.height,
{
}

/// Rendering a group is rendering its children one after the other:
/// over concatenated child lists, the triangle vertices and queued text
/// sections concatenate, and the image pipeline state threads through
/// sequentially.
pub proof fn lemma_group_is_sequential(
    s: Seq<AmethystIcedPrimitive>,
    t: Seq<AmethystIcedPrimitive>,
    res: TextureResolver,
    st: ImageState,
    fonts: FontCache,
)
    ensures
        AmethystIcedPrimitive::triangle_output_children(s + t)
            == AmethystIcedPrimitive::triangle_output_children(s)
            + AmethystIcedPrimitive::triangle_output_children(t),
        AmethystIcedPrimitive::image_output_children(s + t, res, st)
            == AmethystIcedPrimitive::image_output_children(
            t,
            res,
            AmethystIcedPrimitive::image_output_children(s, res, st),
        ),
        AmethystIcedPrimitive::text_output_children(s + t, fonts)
            == AmethystIcedPrimitive::text_output_children(s, fonts)
            + AmethystIcedPrimitive::text_output_children(t, fonts),
    decreases t.len(),
{
    if t.len() == 0 {
        assert(s + t =~= s);
        assert(AmethystIcedPrimitive::triangle_output_children(s) + Seq::<TriangleVertex>::empty()
            =~= AmethystIcedPrimitive::triangle_output_children(s));
        assert(AmethystIcedPrimitive::text_output_children(s, fonts) + Seq::<
            crate::glyph::TextSectionView,
        >::empty() =~= AmethystIcedPrimitive::text_output_children(s, fonts));
    } else {
        lemma_group_is_sequential(s, t.drop_last(), res, st, fonts);
        assert((s + t).drop_last() =~= s + t.drop_last());
        assert((s + t).last() == t.last());
    }
}

/// A group of two children renders as the first followed by the second.
pub proof fn lemma_group_pair(
    a: AmethystIcedPrimitive,
    b: AmethystIcedPrimitive,
    res: TextureResolver,
    st: ImageState,
    fonts: FontCache,
)
    ensures
        AmethystIcedPrimitive::triangle_output_children(seq![a, b]) == a.triangle_output()
            + b.triangle_output(),
        AmethystIcedPrimitive::image_output_children(seq![a, b], res, st) == b.image_output(
            res,
            a.image_output(res, st),
        ),
        AmethystIcedPrimitive::text_output_children(seq![a, b], fonts) == a.text_output(fonts)
            + b.text_output(fonts),
{
    assert(seq![a, b].drop_last() =~= seq![a]);
    assert(seq![a].drop_last() =~= Seq::<AmethystIcedPrimitive>::empty());
    assert(seq![a, b].last() == b);
    assert(seq![a].last() == a);
    assert(AmethystIcedPrimitive::triangle_output_children(Seq::empty())
        == Seq::<TriangleVertex>::empty());
    assert(AmethystIcedPrimitive::triangle_output_children(seq![a])
        == AmethystIcedPrimitive::triangle_output_children(Seq::empty()) + a.triangle_output());
    assert(AmethystIcedPrimitive::triangle_output_children(seq![a, b])
        == AmethystIcedPrimitive::triangle_output_children(seq![a]) + b.triangle_output());
    assert(Seq::<TriangleVertex>::empty() + a.triangle_output() =~= a.triangle_output());
    assert(AmethystIcedPrimitive::image_output_children(Seq::empty(), res, st) == st);
    assert(AmethystIcedPrimitive::image_output_children(seq![a], res, st) == a.image_output(
        res,
        st,
    ));
    assert(AmethystIcedPrimitive::image_output_children(seq![a, b], res, st) == b.image_output(
        res,
        AmethystIcedPrimitive::image_output_children(seq![a], res, st),
    ));
    assert(AmethystIcedPrimitive::text_output_children(Seq::empty(), fonts) == Seq::<
        crate::glyph::TextSectionView,
    >::empty());
    assert(AmethystIcedPrimitive::text_output_children(seq![a], fonts)
        == AmethystIcedPrimitive::text_output_children(Seq::empty(), fonts) + a.text_output(fonts));
    assert(AmethystIcedPrimitive::text_output_children(seq![a, b], fonts)
        == AmethystIcedPrimitive::text_output_children(seq![a], fonts) + b.text_output(fonts));
    assert(Seq::<crate::glyph::TextSectionView>::empty() + a.text_output(fonts) =~= a.text_output(
        fonts,
    ));
}

/// The empty primitive renders nothing: no triangle vertex, no image
/// binding or batch, no queued text.
pub proof fn lemma_nothing_renders_nothing(res: TextureResolver, st: ImageState, fonts: FontCache)
    ensures
        AmethystIcedPrimitive::Nothing.triangle_output() == Seq::<TriangleVertex>::empty(),
        AmethystIcedPrimitive::Nothing.image_output(res, st) == st,
        AmethystIcedPrimitive::Nothing.text_output(fonts) == Seq::<
            crate::glyph::TextSectionView,
        >::empty(),
{
}

/// A process phase always leaves the queue empty and clean, and for a
/// clean cache the redraw case holds whatever was drawn before: so a
/// second process phase with no queueing in between answers `Redraw` and
/// leaves the consumer-visible vertex list untouched, by the contract of
/// `GlyphCache::process_queued`.
pub proof fn lemma_clean_cache_redraws(c: GlyphCacheView)
    requires
        !c.dirty,
    ensures
        redraw_case(c),
{
}

/// An image whose handle resolves translates to exactly six vertices
/// whose UV corners run over the unit square in the order (0,0) (1,0)
/// (1,1) (0,0) (0,1) (1,1), whatever the bounds, appended as one batch
/// insertion under the handle's bound slot.
pub proof fn lemma_image_translation(
    bounds: Rect,
    handle: u64,
    width: u32,
    height: u32,
    res: TextureResolver,
    st: ImageState,
)
    requires
        res.resolves(handle),
    ensures
        AmethystIcedPrimitive::Image(
            bounds,
            ImageHandle::Texture { handle, width, height },
        ).image_output(res, st) == (ImageState {
            table: crate::pipelines::image::table_bind(st.table, handle),
            batches: crate::pipelines::image::batches_insert(
                st.batches,
                crate::pipelines::image::table_slot(st.table, handle),
                quad_image_vertices(bounds),
            ),
        }),
        quad_image_vertices(bounds).len() == 6,
        quad_image_vertices(bounds)[0].u == 0 && quad_image_vertices(bounds)[0].v == 0,
        quad_image_vertices(bounds)[1].u == 1 && quad_image_vertices(bounds)[1].v == 0,
        quad_image_vertices(bounds)[2].u == 1 && quad_image_vertices(bounds)[2].v == 1,
        quad_image_vertices(bounds)[3].u == 0 && quad_image_vertices(bounds)[3].v == 0,
        quad_image_vertices(bounds)[4].u == 0 && quad_image_vertices(bounds)[4].v == 1,
        quad_image_vertices(bounds)[5].u == 1 && quad_image_vertices(bounds)[5].v == 1,
{
}

/// An image whose handle does not resolve renders nothing this frame.
pub proof fn lemma_unresolved_image_skipped(
    bounds: Rect,
    handle: u64,
    width: u32,
    height: u32,
    res: TextureResolver,
    st: ImageState,
)
    requires
        !res.resolves(handle),
    ensures
        AmethystIcedPrimitive::Image(
            bounds,
            ImageHandle::Texture { handle, width, height },
        ).image_output(res, st) == st,
        AmethystIcedPrimitive::Image(
            bounds,
            ImageHandle::Texture { handle, width, height },
        ).triangle_output() == Seq::<TriangleVertex>::empty(),
{
}

/// A pass with nothing accumulated in any pipeline plans zero draw
/// calls.
pub proof fn lemma_empty_pass_draws_nothing(pass: IcedPass, text_len: int)
    requires
        pass.triangle_pipeline.vertices@.len() == 0,
        pass.image_pipeline.batches_view().len() == 0,
        text_len == 0,
    ensures
        pass.spec_draw_inline(text_len) == Seq::<crate::pipelines::DrawCall>::empty(),
{
    assert(batches_draw_calls(pass.image_pipeline.batches_view(), 0) =~= Seq::<
        crate::pipelines::DrawCall,
    >::empty());
    assert(pass.spec_draw_inline(text_len) =~= Seq::<crate::pipelines::DrawCall>::empty());
}

} // verus!
