//! The textured-image pipeline: a frame-scoped texture binding table and
//! an order-preserving batch list, one batch per run of consecutive quads
//! that share a texture.
use vstd::prelude::*;

use crate::geometry::Rect;
use crate::pipelines::DrawCall;
use crate::vertex::ImageVertex;
use crate::vertex::quad_image_vertices;

verus! {

/// The per-pipeline transform data; see `TriangleUniform`.
#[derive(Clone, Copy, Debug, PartialEq, Eq, Structural)]
pub struct ImageUniform {
    pub fb_width: u32,
    pub fb_height: u32,
}

/// A contiguous run of vertices drawn under one bound texture slot.
pub struct ImageBatch {
    pub texture_slot: usize,
    pub vertices: Vec<ImageVertex>,
}

/// CPU-side state of the image pipeline.
///
/// `textures` maps a bound slot (its index) to the external texture
/// identity bound there; both it and `batches` are valid only within the
/// current frame and are cleared by `reset`.
pub struct ImagePipeline {
    pub textures: Vec<u64>,
    pub batches: Vec<ImageBatch>,
    pub transform: ImageUniform,
}

/// The binding table after requesting a slot for `tex`: unchanged if
/// `tex` is already bound, extended by one slot otherwise.
pub open spec fn table_bind(table: Seq<u64>, tex: u64) -> Seq<u64> {
    if table.contains(tex) {
        table
    } else {
        table.push(tex)
    }
}

/// The slot that holds `tex` after `table_bind(table, tex)`.
pub open spec fn table_slot(table: Seq<u64>, tex: u64) -> int {
    table_bind(table, tex).index_of(tex)
}

/// The batch list after appending `vs` under `slot`: the last batch is
/// extended when it already uses `slot`, so consecutive quads of one
/// texture form a single batch; otherwise a new batch is opened.
pub open spec fn batches_insert(
    bs: Seq<(int, Seq<ImageVertex>)>,
    slot: int,
    vs: Seq<ImageVertex>,
) -> Seq<(int, Seq<ImageVertex>)> {
    if bs.len() > 0 && bs.last().0 == slot {
        bs.update(bs.len() - 1, (slot, bs.last().1 + vs))
    } else {
        bs.push((slot, vs))
    }
}

/// The total vertex count of a batch list.
pub open spec fn batches_vertex_total(bs: Seq<(int, Seq<ImageVertex>)>) -> int
    decreases bs.len(),
{
    if bs.len() == 0 {
        0
    } else {
        bs.first().1.len() + batches_vertex_total(bs.drop_first())
    }
}

/// The draw calls for `bs` when its first vertex sits at offset `start`
/// of the uploaded buffer: one call per batch, back to back, in order.
pub open spec fn batches_draw_calls(bs: Seq<(int, Seq<ImageVertex>)>, start: int) -> Seq<DrawCall>
    decreases bs.len(),
{
    if bs.len() == 0 {
        Seq::empty()
    } else {
        seq![
            DrawCall::Image {
                texture_slot: bs.first().0 as usize,
                first_vertex: start as usize,
                vertex_count: bs.first().1.len() as usize,
            },
        ] + batches_draw_calls(bs.drop_first(), start + bs.first().1.len())
    }
}

impl ImagePipeline {
    /// The batch list as slot/vertex sequences.
    pub open spec fn batches_view(self) -> Seq<(int, Seq<ImageVertex>)> {
        self.batches@.map(|i: int, b: ImageBatch| (b.texture_slot as int, b.vertices@))
    }

    /// Frame-local invariant: batches point at bound slots, are non-empty,
    /// consecutive batches use distinct slots, and the binding table holds
    /// each texture at most once.
    pub open spec fn wf(self) -> bool {
        &&& forall|i: int|
            0 <= i < self.batches@.len() ==> (#[trigger] self.batches@[i]).texture_slot
                < self.textures@.len()
        &&& forall|i: int|
            0 <= i < self.batches@.len() ==> (#[trigger] self.batches@[i]).vertices@.len() > 0
        &&& forall|i: int|
            0 <= i < self.batches@.len() - 1 ==> (#[trigger] self.batches@[i]).texture_slot
                != self.batches@[i + 1].texture_slot
        &&& forall|i: int, j: int|
            0 <= i < j < self.textures@.len() ==> self.textures@[i] != self.textures@[j]
    }

    /// A fresh pipeline for a framebuffer of the given dimensions.
    pub fn create_pipeline(fb_width: u32, fb_height: u32) -> (p: ImagePipeline)
        ensures
            p.textures@ == Seq::<u64>::empty(),
            p.batches_view() == Seq::<(int, Seq<ImageVertex>)>::empty(),
            p.transform == (ImageUniform { fb_width, fb_height }),
            p.wf(),
    {
        let p = ImagePipeline {
            textures: Vec::new(),
            batches: Vec::new(),
            transform: ImageUniform { fb_width, fb_height },
        };
        assert(p.batches_view() =~= Seq::<(int, Seq<ImageVertex>)>::empty());
        p
    }

    /// Clears the binding table and the batches at the start of a frame:
    /// slot assignments are batching state, never cached across frames.
    pub fn reset(&mut self)
        ensures
            final(self).textures@ == Seq::<u64>::empty(),
            final(self).batches_view() == Seq::<(int, Seq<ImageVertex>)>::empty(),
            final(self).transform == old(self).transform,
            final(self).wf(),
    {
        self.textures = Vec::new();
        self.batches = Vec::new();
        assert(self.batches_view() =~= Seq::<(int, Seq<ImageVertex>)>::empty());
    }

    /// The slot bound to `tex`, binding it into the first free slot if it
    /// is not bound yet; rebinding within a frame is idempotent.
    pub fn bind(&mut self, tex: u64) -> (slot: usize)
        requires
            old(self).wf(),
        ensures
            final(self).wf(),
            final(self).textures@ == table_bind(old(self).textures@, tex),
            slot as int == table_slot(old(self).textures@, tex),
            final(self).textures@[slot as int] == tex,
            slot < final(self).textures@.len(),
            final(self).batches_view() == old(self).batches_view(),
            final(self).batches@ == old(self).batches@,
            final(self).transform == old(self).transform,
    {
        let n = self.textures.len();
        for i in 0..n
            invariant
                n == self.textures@.len(),
                *self == *old(self),
                old(self).wf(),
                forall|k: int| 0 <= k < i ==> self.textures@[k] != tex,
        {
            if self.textures[i] == tex {
                proof {
                    assert(self.textures@.contains(tex)) by {
                        assert(self.textures@[i as int] == tex);
                    }
                    lemma_unique_index(self.textures@, tex, i as int);
                }
                return i;
            }
        }
        assert(!self.textures@.contains(tex)) by {
            assert(forall|k: int| 0 <= k < self.textures@.len() ==> self.textures@[k] != tex);
        }
        self.textures.push(tex);
        proof {
            assert(self.textures@ == table_bind(old(self).textures@, tex));
            assert(self.textures@.contains(tex)) by {
                assert(self.textures@[self.textures@.len() - 1] == tex);
            }
            assert forall|i: int, j: int|
                0 <= i < j < self.textures@.len() implies self.textures@[i]
                != self.textures@[j] by {
                if j < self.textures@.len() - 1 {
                    assert(old(self).textures@[i] != old(self).textures@[j]);
                }
            }
            lemma_unique_index(self.textures@, tex, self.textures@.len() - 1);
        }
        self.textures.len() - 1
    }

    /// Appends the six image vertices of `bounds` under `slot`, extending
    /// the last batch when it already uses `slot`.
    pub fn insert_quad(&mut self, slot: usize, bounds: &Rect)
        requires
            old(self).wf(),
            slot < old(self).textures@.len(),
            bounds.wf(),
        ensures
            final(self).wf(),
            final(self).batches_view() == batches_insert(
                old(self).batches_view(),
                slot as int,
                quad_image_vertices(*bounds),
            ),
            final(self).textures@ == old(self).textures@,
            final(self).transform == old(self).transform,
    {
        let ghost old_view = self.batches_view();
        let n = self.batches.len();
        if n > 0 {
            let last = self.batches.pop().unwrap();
            if last.texture_slot == slot {
                let mut last = last;
                push_quad_vertices(&mut last.vertices, bounds);
                self.batches.push(last);
                assert(self.batches_view() =~= batches_insert(
                    old_view,
                    slot as int,
                    quad_image_vertices(*bounds),
                ));
            } else {
                self.batches.push(last);
                assert(self.batches@ =~= old(self).batches@);
                let mut vertices: Vec<ImageVertex> = Vec::new();
                push_quad_vertices(&mut vertices, bounds);
                self.batches.push(ImageBatch { texture_slot: slot, vertices });
                assert(self.batches_view() =~= batches_insert(
                    old_view,
                    slot as int,
                    quad_image_vertices(*bounds),
                ));
            }
        } else {
            let mut vertices: Vec<ImageVertex> = Vec::new();
            push_quad_vertices(&mut vertices, bounds);
            self.batches.push(ImageBatch { texture_slot: slot, vertices });
            assert(self.batches_view() =~= batches_insert(
                old_view,
                slot as int,
                quad_image_vertices(*bounds),
            ));
        }
    }

    /// The total number of accumulated image vertices this frame.
    pub fn count(&self) -> (n: usize)
        requires
            batches_vertex_total(self.batches_view()) <= usize::MAX,
        ensures
            n == batches_vertex_total(self.batches_view()),
    {
        let mut n: usize = 0;
        let len = self.batches.len();
        for i in 0..len
            invariant
                len == self.batches@.len(),
                batches_vertex_total(self.batches_view()) <= usize::MAX,
                n == batches_vertex_total(self.batches_view().take(i as int)),
        {
            proof {
                lemma_batches_total_step(self.batches_view(), i as int);
                lemma_batches_total_bound(self.batches_view(), i as int + 1);
            }
            n = n + self.batches[i].vertices.len();
        }
        proof {
            assert(self.batches_view().take(len as int) =~= self.batches_view());
        }
        n
    }

    /// The draw calls this pipeline contributes: one per batch, in batch
    /// order, covering consecutive runs of the uploaded buffer; none at
    /// all when no image was accumulated.
    pub fn draw(&self) -> (calls: Vec<DrawCall>)
        requires
            batches_vertex_total(self.batches_view()) <= usize::MAX,
        ensures
            calls@ == batches_draw_calls(self.batches_view(), 0),
    {
        let mut calls: Vec<DrawCall> = Vec::new();
        let mut off: usize = 0;
        let len = self.batches.len();
        proof {
            assert(self.batches_view().skip(0) =~= self.batches_view());
            assert(self.batches_view().take(0) =~= Seq::<(int, Seq<ImageVertex>)>::empty());
            assert(calls@ + batches_draw_calls(self.batches_view(), 0) =~= batches_draw_calls(
                self.batches_view(),
                0,
            ));
        }
        for i in 0..len
            invariant
                len == self.batches@.len(),
                batches_vertex_total(self.batches_view()) <= usize::MAX,
                off == batches_vertex_total(self.batches_view().take(i as int)),
                batches_draw_calls(self.batches_view(), 0) == calls@ + batches_draw_calls(
                    self.batches_view().skip(i as int),
                    off as int,
                ),
        {
            proof {
                lemma_batches_total_step(self.batches_view(), i as int);
                lemma_batches_total_bound(self.batches_view(), i as int + 1);
                lemma_batches_calls_step(self.batches_view(), i as int, off as int);
            }
            let b = &self.batches[i];
            let ghost prev_calls = calls@;
            calls.push(DrawCall::Image {
                texture_slot: b.texture_slot,
                first_vertex: off,
                vertex_count: b.vertices.len(),
            });
            proof {
                assert(prev_calls + batches_draw_calls(
                    self.batches_view().skip(i as int),
                    off as int,
                ) =~= calls@ + batches_draw_calls(
                    self.batches_view().skip(i as int + 1),
                    off + self.batches_view()[i as int].1.len(),
                ));
            }
            off = off + b.vertices.len();
        }
        proof {
            assert(self.batches_view().skip(len as int) =~= Seq::<(int, Seq<ImageVertex>)>::empty());
            assert(calls@ + batches_draw_calls(
                self.batches_view().skip(len as int),
                off as int,
            ) =~= calls@);
        }
        calls
    }
}

/// Appends the six image vertices of `bounds` to `vs`.
fn push_quad_vertices(vs: &mut Vec<ImageVertex>, bounds: &Rect)
    requires
        bounds.wf(),
    ensures
        final(vs)@ == old(vs)@ + quad_image_vertices(*bounds),
{
    let x0 = bounds.x;
    let y0 = bounds.y;
    let x1 = bounds.right();
    let y1 = bounds.bottom();
    vs.push(ImageVertex { x: x0, y: y0, u: 0, v: 0 });
    vs.push(ImageVertex { x: x1, y: y0, u: 1, v: 0 });
    vs.push(ImageVertex { x: x1, y: y1, u: 1, v: 1 });
    vs.push(ImageVertex { x: x0, y: y0, u: 0, v: 0 });
    vs.push(ImageVertex { x: x0, y: y1, u: 0, v: 1 });
    vs.push(ImageVertex { x: x1, y: y1, u: 1, v: 1 });
    assert(vs@ =~= old(vs)@ + quad_image_vertices(*bounds));
}

/// In a duplicate-free table, `index_of` finds exactly the index that
/// holds the element.
proof fn lemma_unique_index(s: Seq<u64>, x: u64, i: int)
    requires
        forall|p: int, q: int| 0 <= p < q < s.len() ==> s[p] != s[q],
        0 <= i < s.len(),
        s[i] == x,
    ensures
        s.index_of(x) == i,
        s.contains(x),
{
    assert(s.contains(x)) by {
        assert(s[i] == x);
    }
    let j = s.index_of(x);
    assert(0 <= j < s.len() && s[j] == x) by {
        assert(exists|k: int| 0 <= k < s.len() && s[k] == x);
    }
    if i < j {
        assert(s[i] != s[j]);
    } else if j < i {
        assert(s[j] != s[i]);
    }
}

/// Splits the vertex total of a prefix at its next element.
proof fn lemma_batches_total_step(bs: Seq<(int, Seq<ImageVertex>)>, i: int)
    requires
        0 <= i < bs.len(),
    ensures
        batches_vertex_total(bs.take(i + 1)) == batches_vertex_total(bs.take(i)) + bs[i].1.len(),
    decreases i,
{
    if i == 0 {
        assert(bs.take(1).drop_first() =~= Seq::<(int, Seq<ImageVertex>)>::empty());
        assert(bs.take(0) =~= Seq::<(int, Seq<ImageVertex>)>::empty());
    } else {
        lemma_batches_total_step(bs.drop_first(), i - 1);
        assert(bs.take(i + 1).drop_first() =~= bs.drop_first().take(i));
        assert(bs.take(i).drop_first() =~= bs.drop_first().take(i - 1));
    }
}

/// A prefix's vertex total never exceeds the whole total.
proof fn lemma_batches_total_bound(bs: Seq<(int, Seq<ImageVertex>)>, i: int)
    requires
        0 <= i <= bs.len(),
    ensures
        batches_vertex_total(bs.take(i)) + batches_vertex_total(bs.skip(i)) == batches_vertex_total(
            bs,
        ),
        batches_vertex_total(bs.take(i)) >= 0,
        batches_vertex_total(bs.skip(i)) >= 0,
    decreases i,
{
    lemma_batches_total_nonneg(bs.take(i));
    lemma_batches_total_nonneg(bs.skip(i));
    if i == 0 {
        assert(bs.take(0) =~= Seq::<(int, Seq<ImageVertex>)>::empty());
        assert(bs.skip(0) =~= bs);
    } else {
        lemma_batches_total_step(bs, i - 1);
        lemma_batches_total_bound(bs, i - 1);
        assert(bs.skip(i - 1).drop_first() =~= bs.skip(i));
        assert(bs.skip(i - 1).first() == bs[i - 1]);
    }
}

/// Vertex totals are sums of lengths, so never negative.
proof fn lemma_batches_total_nonneg(bs: Seq<(int, Seq<ImageVertex>)>)
    ensures
        batches_vertex_total(bs) >= 0,
    decreases bs.len(),
{
    if bs.len() > 0 {
        lemma_batches_total_nonneg(bs.drop_first());
    }
}

/// Unrolls the draw-call sequence of a suffix by one batch.
proof fn lemma_batches_calls_step(bs: Seq<(int, Seq<ImageVertex>)>, i: int, off: int)
    requires
        0 <= i < bs.len(),
    ensures
        batches_draw_calls(bs.skip(i), off) == seq![
            DrawCall::Image {
                texture_slot: bs[i].0 as usize,
                first_vertex: off as usize,
                vertex_count: bs[i].1.len() as usize,
            },
        ] + batches_draw_calls(bs.skip(i + 1), off + bs[i].1.len()),
{
    assert(bs.skip(i).first() == bs[i]);
    assert(bs.skip(i).drop_first() =~= bs.skip(i + 1));
}

} // verus!
