//! The glyph cache: the per-frame queue of text sections, the decision
//! between re-rasterizing and reusing the previous frame's glyph
//! vertices, and the lazily created atlas texture description.
//!
//! Rasterization itself is the glyph rasterizer's work; it reports its
//! outcome per frame as a `BrushResponse`, and `GlyphCache::process_queued`
//! folds that outcome into the consumer-visible vertex list.
use vstd::prelude::*;

use crate::geometry::Color;
use crate::geometry::HorizontalAlignment;
use crate::vertex::TextVertex;

verus! {

/// One queued text run: everything the rasterizer needs to lay out and
/// draw a `Text` primitive.
#[derive(Debug)]
pub struct TextSection {
    pub content: String,
    /// Font scale in pixels, taken from the primitive's `size`.
    pub size: u16,
    pub color: Color,
    /// Screen position: the top-left corner of the bounds.
    pub x: i32,
    pub y: i32,
    /// Layout bounds.
    pub width: i32,
    pub height: i32,
    pub h_align: HorizontalAlignment,
    /// Rasterizer font id, already resolved through the font cache.
    pub font_id: usize,
}

/// The mathematical value of a `TextSection`.
#[verifier::ext_equal]
pub struct TextSectionView {
    pub content: Seq<char>,
    pub size: u16,
    pub color: Color,
    pub x: i32,
    pub y: i32,
    pub width: i32,
    pub height: i32,
    pub h_align: HorizontalAlignment,
    pub font_id: int,
}

impl View for TextSection {
    type V = TextSectionView;

    open spec fn view(&self) -> TextSectionView {
        TextSectionView {
            content: self.content@,
            size: self.size,
            color: self.color,
            x: self.x,
            y: self.y,
            width: self.width,
            height: self.height,
            h_align: self.h_align,
            font_id: self.font_id as int,
        }
    }
}

impl PartialEq for TextSection {
    fn eq(&self, other: &TextSection) -> (r: bool) {
        self.content == other.content && self.size == other.size && self.color == other.color
            && self.x == other.x && self.y == other.y && self.width == other.width && self.height
            == other.height && self.h_align == other.h_align && self.font_id == other.font_id
    }
}

impl vstd::std_specs::cmp::PartialEqSpecImpl for TextSection {
    open spec fn obeys_eq_spec() -> bool {
        true
    }

    open spec fn eq_spec(&self, other: &TextSection) -> bool {
        self@ == other@
    }
}

/// One laid-out glyph as the rasterizer reports it: a screen-space pixel
/// rectangle, the matching atlas sub-rectangle in atlas pixels, and the
/// text run's color.
#[derive(Clone, Copy, Debug, PartialEq, Eq, Structural)]
pub struct GlyphQuad {
    pub left: i32,
    pub top: i32,
    pub right: i32,
    pub bottom: i32,
    pub uv_left: u32,
    pub uv_top: u32,
    pub uv_right: u32,
    pub uv_bottom: u32,
    pub color: Color,
}

/// What the rasterizer answered for this frame's queue: freshly laid-out
/// glyphs, nothing visibly changed, or an atlas too small for the queued
/// content.
pub enum BrushResponse {
    Draw(Vec<GlyphQuad>),
    Redraw,
    TextureTooSmall { width: u32, height: u32 },
}

/// The outcome of one process phase as the frame orchestrator sees it.
///
/// `TextureTooSmall` carries the rasterizer's suggested atlas size; it is
/// reported, not auto-recovered: the atlas is never resized here, and the
/// next frame re-queues from scratch.
#[derive(Clone, Copy, Debug, PartialEq, Eq, Structural)]
pub enum ProcessOutcome {
    Draw,
    Redraw,
    TextureTooSmall { width: u32, height: u32 },
}

/// The six vertices of one glyph, with the shared winding convention:
/// top-left, top-right, bottom-right, then top-left, bottom-left,
/// bottom-right.
pub open spec fn glyph_vertices(q: GlyphQuad) -> Seq<TextVertex> {
    seq![
        TextVertex { x: q.left, y: q.top, u: q.uv_left, v: q.uv_top, color: q.color },
        TextVertex { x: q.right, y: q.top, u: q.uv_right, v: q.uv_top, color: q.color },
        TextVertex { x: q.right, y: q.bottom, u: q.uv_right, v: q.uv_bottom, color: q.color },
        TextVertex { x: q.left, y: q.top, u: q.uv_left, v: q.uv_top, color: q.color },
        TextVertex { x: q.left, y: q.bottom, u: q.uv_left, v: q.uv_bottom, color: q.color },
        TextVertex { x: q.right, y: q.bottom, u: q.uv_right, v: q.uv_bottom, color: q.color },
    ]
}

/// The vertices of a whole glyph list, six per glyph, in list order.
pub open spec fn glyphs_vertices(qs: Seq<GlyphQuad>) -> Seq<TextVertex>
    decreases qs.len(),
{
    if qs.len() == 0 {
        Seq::empty()
    } else {
        glyphs_vertices(qs.drop_last()) + glyph_vertices(qs.last())
    }
}

/// The consumer-visible list of glyph vertices: what the text pipeline
/// uploads and draws each frame.
pub struct TextVertexContainer(pub Vec<TextVertex>);

impl TextVertexContainer {
    /// An empty vertex list.
    pub fn new() -> (c: TextVertexContainer)
        ensures
            c.0@ == Seq::<TextVertex>::empty(),
    {
        TextVertexContainer(Vec::new())
    }
}

/// The glyph atlas texture description: created lazily at the first
/// process phase with the rasterizer's reported dimensions, and never
/// resized afterwards.
pub struct GlyphAtlas(pub Option<(u32, u32)>);

impl GlyphAtlas {
    /// No atlas yet; the first process phase creates it.
    pub fn new() -> (a: GlyphAtlas)
        ensures
            a.0 is None,
    {
        GlyphAtlas(None)
    }

    /// Records the atlas dimensions on first use and returns them so the
    /// host can create the texture; on every later call the stored
    /// dimensions win and `None` is returned: the atlas is never resized
    /// here.
    pub fn ensure(&mut self, width: u32, height: u32) -> (created: Option<(u32, u32)>)
        ensures
            old(self).0 is None ==> final(self).0 == Some((width, height)) && created == Some(
                (width, height),
            ),
            old(self).0 is Some ==> final(self).0 == old(self).0 && created is None,
    {
        match self.0 {
            Option::None => {
                self.0 = Some((width, height));
                Some((width, height))
            },
            Option::Some(_) => None,
        }
    }
}

/// The mathematical value of a `GlyphCache`.
#[verifier::ext_equal]
pub struct GlyphCacheView {
    pub pending: Seq<TextSectionView>,
    pub dirty: bool,
    pub last: Option<Seq<TextSectionView>>,
}

/// A process phase may reuse the previous frame's vertex list exactly
/// when nothing was queued since the last process phase, or the queued
/// sections equal the ones the list was drawn from.
pub open spec fn redraw_case(c: GlyphCacheView) -> bool {
    !c.dirty || c.last == Some(c.pending)
}

/// The per-frame glyph cache state machine.
///
/// Queue phase: the tree walk appends one `TextSection` per `Text`
/// primitive.  Process phase: `process_queued` folds the rasterizer's
/// response into the consumer-visible vertex list, reusing the previous
/// list when the queue is unchanged.
pub struct GlyphCache {
    /// Sections queued since the last process phase.
    pending: Vec<TextSection>,
    /// Whether any `queue` call happened since the last process phase.
    dirty: bool,
    /// The sections the current vertex list was drawn from; `None` after
    /// a failed (atlas too small) process phase, so the next frame always
    /// re-rasterizes.
    last: Option<Vec<TextSection>>,
}

impl View for GlyphCache {
    type V = GlyphCacheView;

    closed spec fn view(&self) -> GlyphCacheView {
        GlyphCacheView {
            pending: self.pending@.map_values(|s: TextSection| s@),
            dirty: self.dirty,
            last: match self.last {
                Option::None => None,
                Option::Some(l) => Some(l@.map_values(|s: TextSection| s@)),
            },
        }
    }
}

impl GlyphCache {
    /// An empty cache: nothing queued, nothing drawn yet.
    pub fn new() -> (c: GlyphCache)
        ensures
            c@.pending == Seq::<TextSectionView>::empty(),
            c@.dirty == false,
            c@.last is None,
    {
        let c = GlyphCache { pending: Vec::new(), dirty: false, last: None };
        proof {
            assert(c@.pending =~= Seq::<TextSectionView>::empty());
        }
        c
    }

    /// The sections queued since the last process phase, in queue order;
    /// the host mirrors these to the rasterizer before processing.
    pub fn pending_sections(&self) -> (s: &Vec<TextSection>)
        ensures
            s@.map_values(|t: TextSection| t@) == self@.pending,
    {
        &self.pending
    }

    /// Queue phase: appends one section for the coming process phase.
    pub fn queue(&mut self, section: TextSection)
        ensures
            final(self)@.pending == old(self)@.pending.push(section@),
            final(self)@.dirty == true,
            final(self)@.last == old(self)@.last,
    {
        self.pending.push(section);
        self.dirty = true;
        proof {
            assert(self@.pending =~= old(self)@.pending.push(self.pending@.last()@));
        }
    }

    /// Process phase.  When the queue is unchanged since the last process
    /// phase the previous vertex list is reused untouched and the
    /// rasterizer's response is not consulted; otherwise the response
    /// decides: fresh glyphs replace the list, a rasterizer-side redraw
    /// keeps it, and an overfull atlas keeps it too but forgets the drawn
    /// sections so the next frame re-rasterizes.  Either way the queue is
    /// emptied for the next frame.
    pub fn process_queued(&mut self, response: &BrushResponse, out: &mut TextVertexContainer) -> (oc:
        ProcessOutcome)
        ensures
            final(self)@.pending == Seq::<TextSectionView>::empty(),
            final(self)@.dirty == false,
            redraw_case(old(self)@) ==> oc == ProcessOutcome::Redraw
                && final(out).0@ == old(out).0@
                && final(self)@.last == old(self)@.last,
            !redraw_case(old(self)@) ==> (response matches BrushResponse::Draw(qs)
                ==> oc == ProcessOutcome::Draw
                && final(out).0@ == glyphs_vertices(qs@)
                && final(self)@.last == Some(old(self)@.pending)),
            !redraw_case(old(self)@) ==> (response matches BrushResponse::Redraw
                ==> oc == ProcessOutcome::Redraw
                && final(out).0@ == old(out).0@
                && final(self)@.last == Some(old(self)@.pending)),
            !redraw_case(old(self)@) ==> (response matches BrushResponse::TextureTooSmall { width, height }
                ==> oc == (ProcessOutcome::TextureTooSmall { width: *width, height: *height })
                && final(out).0@ == old(out).0@
                && final(self)@.last is None),
    {
        let redraw = if !self.dirty {
            true
        } else {
            match &self.last {
                Option::None => false,
                Option::Some(l) => sections_equal(&self.pending, l),
            }
        };
        let mut taken: Vec<TextSection> = Vec::new();
        core::mem::swap(&mut taken, &mut self.pending);
        self.dirty = false;
        proof {
            assert(self@.pending =~= Seq::<TextSectionView>::empty());
            assert(taken@.map_values(|s: TextSection| s@) == old(self)@.pending);
        }
        if redraw {
            return ProcessOutcome::Redraw;
        }
        match response {
            BrushResponse::Draw(qs) => {
                let mut vertices: Vec<TextVertex> = Vec::new();
                let n = qs.len();
                for i in 0..n
                    invariant
                        n == qs@.len(),
                        vertices@ == glyphs_vertices(qs@.take(i as int)),
                {
                    push_glyph_vertices(&mut vertices, &qs[i]);
                    proof {
                        assert(qs@.take(i as int + 1).drop_last() =~= qs@.take(i as int));
                        assert(qs@.take(i as int + 1).last() == qs@[i as int]);
                    }
                }
                proof {
                    assert(qs@.take(n as int) =~= qs@);
                }
                out.0 = vertices;
                self.last = Some(taken);
                ProcessOutcome::Draw
            },
            BrushResponse::Redraw => {
                self.last = Some(taken);
                ProcessOutcome::Redraw
            },
            BrushResponse::TextureTooSmall { width, height } => {
                self.last = None;
                ProcessOutcome::TextureTooSmall { width: *width, height: *height }
            },
        }
    }
}

/// Appends the six vertices of one glyph to `vs`.
fn push_glyph_vertices(vs: &mut Vec<TextVertex>, q: &GlyphQuad)
    ensures
        final(vs)@ == old(vs)@ + glyph_vertices(*q),
{
    vs.push(TextVertex { x: q.left, y: q.top, u: q.uv_left, v: q.uv_top, color: q.color });
    vs.push(TextVertex { x: q.right, y: q.top, u: q.uv_right, v: q.uv_top, color: q.color });
    vs.push(TextVertex { x: q.right, y: q.bottom, u: q.uv_right, v: q.uv_bottom, color: q.color });
    vs.push(TextVertex { x: q.left, y: q.top, u: q.uv_left, v: q.uv_top, color: q.color });
    vs.push(TextVertex { x: q.left, y: q.bottom, u: q.uv_left, v: q.uv_bottom, color: q.color });
    vs.push(TextVertex { x: q.right, y: q.bottom, u: q.uv_right, v: q.uv_bottom, color: q.color });
    assert(vs@ =~= old(vs)@ + glyph_vertices(*q));
}

/// Element-wise equality of two section lists, by their mathematical
/// values.
fn sections_equal(a: &Vec<TextSection>, b: &Vec<TextSection>) -> (r: bool)
    ensures
        r == (a@.map_values(|s: TextSection| s@) == b@.map_values(|s: TextSection| s@)),
{
    if a.len() != b.len() {
        proof {
            assert(a@.map_values(|s: TextSection| s@).len() != b@.map_values(
                |s: TextSection| s@,
            ).len());
        }
        return false;
    }
    let n = a.len();
    for i in 0..n
        invariant
            n == a@.len(),
            n == b@.len(),
            forall|k: int| 0 <= k < i ==> a@[k]@ == b@[k]@,
    {
        if !(a[i] == b[i]) {
            proof {
                assert(a@.map_values(|s: TextSection| s@)[i as int] == a@[i as int]@);
                assert(b@.map_values(|s: TextSection| s@)[i as int] == b@[i as int]@);
            }
            return false;
        }
    }
    proof {
        assert(a@.map_values(|s: TextSection| s@) =~= b@.map_values(|s: TextSection| s@));
    }
    true
}

} // verus!
