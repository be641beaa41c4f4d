//! Pipeline-level behaviour: binding, batching, draw-call decisions and
//! frame resets, exercised directly on the pipeline states.
use amethyst_iced::Color;
use amethyst_iced::DrawCall;
use amethyst_iced::GlyphAtlas;
use amethyst_iced::ImagePipeline;
use amethyst_iced::Rect;
use amethyst_iced::TextPipeline;
use amethyst_iced::TextVertex;
use amethyst_iced::TextVertexContainer;
use amethyst_iced::TrianglePipeline;
use amethyst_iced::TriangleUniform;

fn rect(x: i32, y: i32, width: i32, height: i32) -> Rect {
    Rect { x, y, width, height }
}

#[test]
fn triangle_pipeline_draws_exactly_the_accumulated_count() {
    let mut p = TrianglePipeline::create_pipeline(800, 600);
    assert_eq!(p.draw(), None);
    p.push_quad(&rect(0, 0, 10, 10), Color { r: 1, g: 2, b: 3, a: 4 });
    p.push_quad(&rect(5, 5, 10, 10), Color { r: 1, g: 2, b: 3, a: 4 });
    assert_eq!(p.draw(), Some(DrawCall::Triangle { vertex_count: 12 }));
}

#[test]
fn triangle_transform_is_fixed_at_creation_and_survives_reset() {
    let mut p = TrianglePipeline::create_pipeline(1024, 768);
    p.push_quad(&rect(0, 0, 1, 1), Color { r: 0, g: 0, b: 0, a: 0 });
    p.reset();
    assert_eq!(p.vertices.len(), 0);
    assert_eq!(p.transform, TriangleUniform { fb_width: 1024, fb_height: 768 });
}

#[test]
fn quad_at_extreme_bounds_keeps_exact_corners() {
    let mut p = TrianglePipeline::create_pipeline(800, 600);
    p.push_quad(&rect(0, 0, i32::MAX, i32::MAX), Color { r: 9, g: 9, b: 9, a: 9 });
    assert_eq!((p.vertices[2].x, p.vertices[2].y), (i32::MAX, i32::MAX));
    assert_eq!((p.vertices[0].x, p.vertices[0].y), (0, 0));
}

#[test]
fn binding_the_same_texture_twice_reuses_the_slot() {
    let mut p = ImagePipeline::create_pipeline(800, 600);
    let a = p.bind(42);
    let b = p.bind(7);
    let c = p.bind(42);
    assert_eq!((a, b, c), (0, 1, 0));
    assert_eq!(p.textures, vec![42, 7]);
}

#[test]
fn image_reset_clears_bindings_and_batches() {
    let mut p = ImagePipeline::create_pipeline(800, 600);
    let slot = p.bind(42);
    p.insert_quad(slot, &rect(0, 0, 8, 8));
    p.reset();
    assert_eq!(p.textures.len(), 0);
    assert_eq!(p.batches.len(), 0);
    assert_eq!(p.count(), 0);
    assert_eq!(p.draw(), Vec::<DrawCall>::new());
}

#[test]
fn consecutive_quads_of_one_slot_coalesce_into_one_batch() {
    let mut p = ImagePipeline::create_pipeline(800, 600);
    let slot = p.bind(42);
    p.insert_quad(slot, &rect(0, 0, 8, 8));
    p.insert_quad(slot, &rect(10, 0, 8, 8));
    assert_eq!(p.batches.len(), 1);
    assert_eq!(p.batches[0].vertices.len(), 12);
    assert_eq!(
        p.draw(),
        vec![DrawCall::Image { texture_slot: 0, first_vertex: 0, vertex_count: 12 }]
    );
}

#[test]
fn text_pipeline_binds_the_atlas_once_it_exists() {
    let mut p = TextPipeline::create_pipeline(800, 600);
    let mut atlas = GlyphAtlas::new();
    p.bind_texture_id(&atlas);
    assert_eq!(p.glyph_atlas_id, None);
    atlas.ensure(256, 256);
    p.bind_texture_id(&atlas);
    assert_eq!(p.glyph_atlas_id, Some(0));
    // Binding again is a no-op.
    p.bind_texture_id(&atlas);
    assert_eq!(p.glyph_atlas_id, Some(0));
}

#[test]
fn text_pipeline_skips_draw_for_empty_vertex_list() {
    let mut p = TextPipeline::create_pipeline(800, 600);
    let mut atlas = GlyphAtlas::new();
    atlas.ensure(256, 256);
    p.bind_texture_id(&atlas);
    let empty = TextVertexContainer::new();
    assert_eq!(p.draw(&empty), None);
    let one = TextVertexContainer(vec![TextVertex {
        x: 0,
        y: 0,
        u: 0,
        v: 0,
        color: Color { r: 0, g: 0, b: 0, a: 255 },
    }]);
    assert_eq!(p.draw(&one), Some(DrawCall::Text { texture_slot: 0, vertex_count: 1 }));
}
