//! The per-frame font load tick: pending fonts whose asset bytes have
//! arrived are imported into the rasterizer and promoted to ready under
//! the id the rasterizer assigned.
use vstd::prelude::*;

use crate::brush::brush_add_font;
use crate::font_cache::FontCache;
use crate::font_cache::FontState;

verus! {

/// Whether one of the first `upto` ready pairs carries the name `n`.
pub open spec fn has_ready_name<'font>(
    ready: Seq<(String, glyph_brush::rusttype::Font<'font>)>,
    n: Seq<char>,
    upto: int,
) -> bool {
    exists|i: int| 0 <= i < upto && ready[i].0@ == n
}

/// The system that resolves pending font-cache entries, once per frame.
pub struct LoadFontToCacheSystem;

impl LoadFontToCacheSystem {
    /// One load tick over the fonts whose assets are available.
    ///
    /// `ready` pairs each available font's registered name with its
    /// parsed font data.  Every cache entry that is still pending and
    /// named in `ready` is imported into the rasterizer and becomes
    /// ready; every other entry is untouched, so handles never change, a
    /// ready entry keeps its id forever, and a pending entry whose asset
    /// has not arrived stays pending for the next tick.
    pub fn run<'font, V: Clone + 'static, H: std::hash::BuildHasher>(
        cache: &mut FontCache,
        brush: &mut glyph_brush::GlyphBrush<'font, V, H>,
        ready: Vec<(String, glyph_brush::rusttype::Font<'font>)>,
    )
        requires
            old(cache).wf(),
        ensures
            final(cache).wf(),
            final(cache)@.dom() == old(cache)@.dom(),
            forall|n: Seq<char>|
                old(cache)@.contains_key(n) ==> (#[trigger] final(cache)@[n]).handle == old(
                    cache,
                )@[n].handle,
            forall|n: Seq<char>|
                old(cache)@.contains_key(n) && old(cache)@[n].state is Ready
                    ==> (#[trigger] final(cache)@[n]).state == old(cache)@[n].state,
            forall|n: Seq<char>|
                old(cache)@.contains_key(n) && old(cache)@[n].state is Pending && has_ready_name(
                    ready@,
                    n,
                    ready@.len() as int,
                ) ==> (#[trigger] final(cache)@[n]).state is Ready,
            forall|n: Seq<char>|
                old(cache)@.contains_key(n) && old(cache)@[n].state is Pending && !has_ready_name(
                    ready@,
                    n,
                    ready@.len() as int,
                ) ==> (#[trigger] final(cache)@[n]).state is Pending,
    {
        let ghost all = ready@;
        let mut remaining = ready;
        while remaining.len() > 0
            invariant
                cache.wf(),
                remaining@ == all.take(remaining@.len() as int),
                remaining@.len() <= all.len(),
                cache@.dom() == old(cache)@.dom(),
                forall|n: Seq<char>|
                    old(cache)@.contains_key(n) ==> (#[trigger] cache@[n]).handle == old(
                        cache,
                    )@[n].handle,
                forall|n: Seq<char>|
                    old(cache)@.contains_key(n) && old(cache)@[n].state is Ready
                        ==> (#[trigger] cache@[n]).state == old(cache)@[n].state,
                forall|n: Seq<char>|
                    old(cache)@.contains_key(n) && old(cache)@[n].state is Pending
                        && has_ready_name(all, n, all.len() as int) && !has_ready_name(
                        all,
                        n,
                        remaining@.len() as int,
                    ) ==> (#[trigger] cache@[n]).state is Ready,
                forall|n: Seq<char>|
                    old(cache)@.contains_key(n) && old(cache)@[n].state is Pending
                        && !has_ready_name(all, n, all.len() as int) ==> (#[trigger] cache@[n]).state
                        is Pending,
            decreases remaining@.len(),
        {
            let ghost k = remaining@.len() as int;
            let pair = remaining.pop().unwrap();
            proof {
                assert(remaining@ =~= all.take(k - 1));
                assert(pair == all[k - 1]);
            }
            let (name, font) = pair;
            if cache.is_pending(&name) {
                let id = brush_add_font(brush, font);
                cache.mark_loaded(&name, id);
            }
            proof {
                let ghost processed = all[k - 1].0@;
                assert forall|n: Seq<char>|
                    old(cache)@.contains_key(n) && old(cache)@[n].state is Pending
                        && has_ready_name(all, n, all.len() as int) && !has_ready_name(
                        all,
                        n,
                        k - 1,
                    ) implies (#[trigger] cache@[n]).state is Ready by {
                    if !has_ready_name(all, n, k) {
                    } else {
                        let i = choose|i: int| 0 <= i < k && all[i].0@ == n;
                        assert(i == k - 1);
                        assert(n == processed);
                    }
                }
            }
        }
        proof {
            assert(remaining@.len() == 0);
        }
    }
}

} // verus!
