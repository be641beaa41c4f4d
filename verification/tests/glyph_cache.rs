//! Behaviour of the glyph cache state machine and the atlas description.
use amethyst_iced::BrushResponse;
use amethyst_iced::Color;
use amethyst_iced::GlyphAtlas;
use amethyst_iced::GlyphCache;
use amethyst_iced::GlyphQuad;
use amethyst_iced::HorizontalAlignment;
use amethyst_iced::ProcessOutcome;
use amethyst_iced::TextSection;
use amethyst_iced::TextVertex;
use amethyst_iced::TextVertexContainer;

fn section(text: &str) -> TextSection {
    TextSection {
        content: String::from(text),
        size: 16,
        color: Color { r: 0, g: 0, b: 0, a: 255 },
        x: 0,
        y: 0,
        width: 100,
        height: 20,
        h_align: HorizontalAlignment::Left,
        font_id: 0,
    }
}

fn quad() -> GlyphQuad {
    GlyphQuad {
        left: 2,
        top: 3,
        right: 10,
        bottom: 15,
        uv_left: 0,
        uv_top: 0,
        uv_right: 8,
        uv_bottom: 12,
        color: Color { r: 1, g: 2, b: 3, a: 4 },
    }
}

#[test]
fn draw_expands_each_glyph_to_six_vertices_in_winding_order() {
    let mut cache = GlyphCache::new();
    let mut out = TextVertexContainer::new();
    cache.queue(section("a"));
    let oc = cache.process_queued(&BrushResponse::Draw(vec![quad()]), &mut out);
    assert_eq!(oc, ProcessOutcome::Draw);
    let q = quad();
    let c = q.color;
    let expected = vec![
        TextVertex { x: 2, y: 3, u: 0, v: 0, color: c },
        TextVertex { x: 10, y: 3, u: 8, v: 0, color: c },
        TextVertex { x: 10, y: 15, u: 8, v: 12, color: c },
        TextVertex { x: 2, y: 3, u: 0, v: 0, color: c },
        TextVertex { x: 2, y: 15, u: 0, v: 12, color: c },
        TextVertex { x: 10, y: 15, u: 8, v: 12, color: c },
    ];
    assert_eq!(out.0, expected);
}

#[test]
fn process_twice_without_queueing_redraws_and_keeps_vertices() {
    let mut cache = GlyphCache::new();
    let mut out = TextVertexContainer::new();
    cache.queue(section("hello"));
    let first = cache.process_queued(&BrushResponse::Draw(vec![quad()]), &mut out);
    assert_eq!(first, ProcessOutcome::Draw);
    let drawn = out.0.clone();
    assert_eq!(drawn.len(), 6);

    // No queue call in between: the rasterizer is not even consulted, so
    // whatever it would answer, the outcome is Redraw and the list stays.
    let second = cache.process_queued(&BrushResponse::Draw(vec![]), &mut out);
    assert_eq!(second, ProcessOutcome::Redraw);
    assert_eq!(out.0, drawn);
}

#[test]
fn requeueing_identical_sections_redraws() {
    let mut cache = GlyphCache::new();
    let mut out = TextVertexContainer::new();
    cache.queue(section("stable"));
    assert_eq!(
        cache.process_queued(&BrushResponse::Draw(vec![quad()]), &mut out),
        ProcessOutcome::Draw
    );
    let drawn = out.0.clone();

    // The next frame queues the very same content.
    cache.queue(section("stable"));
    let oc = cache.process_queued(&BrushResponse::Draw(vec![]), &mut out);
    assert_eq!(oc, ProcessOutcome::Redraw);
    assert_eq!(out.0, drawn);
}

#[test]
fn changed_sections_draw_fresh_vertices() {
    let mut cache = GlyphCache::new();
    let mut out = TextVertexContainer::new();
    cache.queue(section("one"));
    cache.process_queued(&BrushResponse::Draw(vec![quad()]), &mut out);

    cache.queue(section("two"));
    let mut q2 = quad();
    q2.left = 100;
    let oc = cache.process_queued(&BrushResponse::Draw(vec![q2]), &mut out);
    assert_eq!(oc, ProcessOutcome::Draw);
    assert_eq!(out.0.len(), 6);
    assert_eq!(out.0[0].x, 100);
}

#[test]
fn rasterizer_redraw_keeps_previous_vertices() {
    let mut cache = GlyphCache::new();
    let mut out = TextVertexContainer::new();
    cache.queue(section("text"));
    cache.process_queued(&BrushResponse::Draw(vec![quad()]), &mut out);
    let drawn = out.0.clone();

    cache.queue(section("other"));
    let oc = cache.process_queued(&BrushResponse::Redraw, &mut out);
    assert_eq!(oc, ProcessOutcome::Redraw);
    assert_eq!(out.0, drawn);
}

#[test]
fn texture_too_small_is_reported_and_forces_rerasterization() {
    let mut cache = GlyphCache::new();
    let mut out = TextVertexContainer::new();
    cache.queue(section("big"));
    cache.process_queued(&BrushResponse::Draw(vec![quad()]), &mut out);
    let drawn = out.0.clone();

    cache.queue(section("bigger"));
    let oc = cache.process_queued(
        &BrushResponse::TextureTooSmall { width: 512, height: 512 },
        &mut out,
    );
    assert_eq!(oc, ProcessOutcome::TextureTooSmall { width: 512, height: 512 });
    // Not auto-recovered: the vertex list is left as it was.
    assert_eq!(out.0, drawn);

    // The failed frame's sections were forgotten, so re-queueing the
    // same content rasterizes again instead of pretending a redraw.
    cache.queue(section("bigger"));
    let oc2 = cache.process_queued(&BrushResponse::Draw(vec![quad()]), &mut out);
    assert_eq!(oc2, ProcessOutcome::Draw);
}

#[test]
fn process_with_empty_queue_and_no_history_redraws_empty() {
    let mut cache = GlyphCache::new();
    let mut out = TextVertexContainer::new();
    let oc = cache.process_queued(&BrushResponse::Redraw, &mut out);
    assert_eq!(oc, ProcessOutcome::Redraw);
    assert_eq!(out.0.len(), 0);
}

#[test]
fn queue_accumulates_sections_in_order() {
    let mut cache = GlyphCache::new();
    cache.queue(section("first"));
    cache.queue(section("second"));
    let sections = cache.pending_sections();
    assert_eq!(sections.len(), 2);
    assert_eq!(sections[0].content, "first");
    assert_eq!(sections[1].content, "second");
}

#[test]
fn atlas_is_created_once_and_never_resized() {
    let mut atlas = GlyphAtlas::new();
    assert!(atlas.0.is_none());
    assert_eq!(atlas.ensure(256, 256), Some((256, 256)));
    assert_eq!(atlas.0, Some((256, 256)));
    // A later, larger request does not resize the atlas.
    assert_eq!(atlas.ensure(1024, 1024), None);
    assert_eq!(atlas.0, Some((256, 256)));
}
