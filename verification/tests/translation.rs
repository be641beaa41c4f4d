//! Behaviour of the primitive translator: quads, images, groups and the
//! draw plan.
use amethyst_iced::AmethystIcedPrimitive;
use amethyst_iced::Color;
use amethyst_iced::DrawCall;
use amethyst_iced::FontCache;
use amethyst_iced::GlyphAtlas;
use amethyst_iced::GlyphCache;
use amethyst_iced::HorizontalAlignment;
use amethyst_iced::IcedPassDesc;
use amethyst_iced::IcedPrimitives;
use amethyst_iced::ImageHandle;
use amethyst_iced::ImageVertex;
use amethyst_iced::Rect;
use amethyst_iced::TextVertexContainer;
use amethyst_iced::TextureResolver;
use amethyst_iced::TriangleVertex;
use amethyst_iced::VerticalAlignment;

fn rect(x: i32, y: i32, width: i32, height: i32) -> Rect {
    Rect { x, y, width, height }
}

fn color(r: u8, g: u8, b: u8, a: u8) -> Color {
    Color { r, g, b, a }
}

struct Frame {
    pass: amethyst_iced::IcedPass,
    resolver: TextureResolver,
    fonts: FontCache,
    glyphs: GlyphCache,
    atlas: GlyphAtlas,
}

fn frame_with_textures(loaded: Vec<u64>) -> Frame {
    Frame {
        pass: IcedPassDesc.build(800, 600),
        resolver: TextureResolver { loaded },
        fonts: FontCache::new(),
        glyphs: GlyphCache::new(),
        atlas: GlyphAtlas::new(),
    }
}

fn render(frame: &mut Frame, prim: AmethystIcedPrimitive) {
    prim.render(
        &mut frame.pass,
        &frame.resolver,
        &frame.fonts,
        &mut frame.glyphs,
    );
}

#[test]
fn quad_emits_six_vertices_covering_bounds() {
    let mut frame = frame_with_textures(vec![]);
    let c = color(10, 20, 30, 40);
    render(
        &mut frame,
        AmethystIcedPrimitive::Quad(rect(5, 7, 100, 50), Some(c)),
    );
    let vs = &frame.pass.triangle_pipeline.vertices;
    assert_eq!(vs.len(), 6);
    let expected = vec![
        TriangleVertex { x: 5, y: 7, color: c },
        TriangleVertex { x: 105, y: 7, color: c },
        TriangleVertex { x: 105, y: 57, color: c },
        TriangleVertex { x: 5, y: 7, color: c },
        TriangleVertex { x: 5, y: 57, color: c },
        TriangleVertex { x: 105, y: 57, color: c },
    ];
    assert_eq!(*vs, expected);
}

#[test]
fn quad_without_color_is_opaque_white() {
    let mut frame = frame_with_textures(vec![]);
    render(
        &mut frame,
        AmethystIcedPrimitive::Quad(rect(0, 0, 1, 1), None),
    );
    for v in &frame.pass.triangle_pipeline.vertices {
        assert_eq!(v.color, color(255, 255, 255, 255));
    }
}

#[test]
fn zero_size_quad_still_emits_six_vertices() {
    let mut frame = frame_with_textures(vec![]);
    render(
        &mut frame,
        AmethystIcedPrimitive::Quad(rect(3, 4, 0, 0), Some(color(1, 1, 1, 1))),
    );
    assert_eq!(frame.pass.triangle_pipeline.vertices.len(), 6);
    for v in &frame.pass.triangle_pipeline.vertices {
        assert_eq!((v.x, v.y), (3, 4));
    }
}

#[test]
fn group_output_is_concatenation_in_order() {
    let a = AmethystIcedPrimitive::Quad(rect(0, 0, 10, 10), Some(color(1, 0, 0, 255)));
    let b = AmethystIcedPrimitive::Quad(rect(20, 20, 5, 5), Some(color(0, 1, 0, 255)));

    let mut grouped = frame_with_textures(vec![]);
    render(
        &mut grouped,
        AmethystIcedPrimitive::Group(vec![a, b]),
    );

    let a2 = AmethystIcedPrimitive::Quad(rect(0, 0, 10, 10), Some(color(1, 0, 0, 255)));
    let b2 = AmethystIcedPrimitive::Quad(rect(20, 20, 5, 5), Some(color(0, 1, 0, 255)));
    let mut sequential = frame_with_textures(vec![]);
    render(&mut sequential, a2);
    render(&mut sequential, b2);

    assert_eq!(
        grouped.pass.triangle_pipeline.vertices,
        sequential.pass.triangle_pipeline.vertices
    );
    assert_eq!(grouped.pass.triangle_pipeline.vertices.len(), 12);
}

#[test]
fn nothing_emits_zero_vertices_in_every_pipeline() {
    let mut frame = frame_with_textures(vec![1, 2, 3]);
    render(&mut frame, AmethystIcedPrimitive::Nothing);
    assert_eq!(frame.pass.triangle_pipeline.vertices.len(), 0);
    assert_eq!(frame.pass.image_pipeline.textures.len(), 0);
    assert_eq!(frame.pass.image_pipeline.batches.len(), 0);
    assert_eq!(frame.glyphs.pending_sections().len(), 0);
}

#[test]
fn resolved_image_emits_six_vertices_with_unit_uv_corners() {
    let mut frame = frame_with_textures(vec![42]);
    render(
        &mut frame,
        AmethystIcedPrimitive::Image(
            rect(10, 10, 300, 200),
            ImageHandle::Texture { handle: 42, width: 64, height: 64 },
        ),
    );
    let batches = &frame.pass.image_pipeline.batches;
    assert_eq!(batches.len(), 1);
    let vs = &batches[0].vertices;
    let uvs: Vec<(u8, u8)> = vs.iter().map(|v| (v.u, v.v)).collect();
    assert_eq!(uvs, vec![(0, 0), (1, 0), (1, 1), (0, 0), (0, 1), (1, 1)]);
    assert_eq!(
        vs[2],
        ImageVertex { x: 310, y: 210, u: 1, v: 1 }
    );
}

#[test]
fn uv_corners_do_not_depend_on_bounds_size() {
    let mut small = frame_with_textures(vec![7]);
    render(
        &mut small,
        AmethystIcedPrimitive::Image(
            rect(0, 0, 1, 1),
            ImageHandle::Texture { handle: 7, width: 1000, height: 1000 },
        ),
    );
    let uvs: Vec<(u8, u8)> = small.pass.image_pipeline.batches[0]
        .vertices
        .iter()
        .map(|v| (v.u, v.v))
        .collect();
    assert_eq!(uvs, vec![(0, 0), (1, 0), (1, 1), (0, 0), (0, 1), (1, 1)]);
}

#[test]
fn unresolved_image_is_skipped_silently() {
    let mut frame = frame_with_textures(vec![1]);
    render(
        &mut frame,
        AmethystIcedPrimitive::Image(
            rect(0, 0, 10, 10),
            ImageHandle::Texture { handle: 99, width: 8, height: 8 },
        ),
    );
    assert_eq!(frame.pass.image_pipeline.batches.len(), 0);
    assert_eq!(frame.pass.image_pipeline.textures.len(), 0);
}

#[test]
fn same_texture_twice_gives_one_slot_and_one_batch_of_twelve() {
    let mut frame = frame_with_textures(vec![42]);
    let first = AmethystIcedPrimitive::Image(
        rect(0, 0, 10, 10),
        ImageHandle::Texture { handle: 42, width: 8, height: 8 },
    );
    let second = AmethystIcedPrimitive::Image(
        rect(20, 0, 10, 10),
        ImageHandle::Texture { handle: 42, width: 8, height: 8 },
    );
    render(&mut frame, AmethystIcedPrimitive::Group(vec![first, second]));
    assert_eq!(frame.pass.image_pipeline.textures, vec![42]);
    let batches = &frame.pass.image_pipeline.batches;
    assert_eq!(batches.len(), 1);
    assert_eq!(batches[0].texture_slot, 0);
    assert_eq!(batches[0].vertices.len(), 12);
}

#[test]
fn interleaved_textures_keep_paint_order_in_separate_batches() {
    let mut frame = frame_with_textures(vec![1, 2]);
    let handle = |h| ImageHandle::Texture { handle: h, width: 8, height: 8 };
    render(
        &mut frame,
        AmethystIcedPrimitive::Group(vec![
            AmethystIcedPrimitive::Image(rect(0, 0, 10, 10), handle(1)),
            AmethystIcedPrimitive::Image(rect(0, 0, 10, 10), handle(2)),
            AmethystIcedPrimitive::Image(rect(0, 0, 10, 10), handle(1)),
        ]),
    );
    assert_eq!(frame.pass.image_pipeline.textures, vec![1, 2]);
    let slots: Vec<usize> = frame
        .pass
        .image_pipeline
        .batches
        .iter()
        .map(|b| b.texture_slot)
        .collect();
    assert_eq!(slots, vec![0, 1, 0]);
    assert_eq!(frame.pass.image_pipeline.count(), 18);
}

#[test]
fn text_primitive_queues_one_section_and_no_vertices() {
    let mut frame = frame_with_textures(vec![]);
    render(
        &mut frame,
        AmethystIcedPrimitive::Text {
            bounds: rect(10, 20, 200, 40),
            content: String::from("hello"),
            size: 24,
            color: color(0, 0, 0, 255),
            horizontal_alignment: HorizontalAlignment::Center,
            vertical_alignment: VerticalAlignment::Top,
            font: String::from("Arial"),
        },
    );
    assert_eq!(frame.pass.triangle_pipeline.vertices.len(), 0);
    let sections = frame.glyphs.pending_sections();
    assert_eq!(sections.len(), 1);
    assert_eq!(sections[0].content, "hello");
    assert_eq!(sections[0].size, 24);
    assert_eq!((sections[0].x, sections[0].y), (10, 20));
    assert_eq!((sections[0].width, sections[0].height), (200, 40));
    assert_eq!(sections[0].h_align, HorizontalAlignment::Center);
    // The font is not registered, so the default font id is used.
    assert_eq!(sections[0].font_id, 0);
}

#[test]
fn empty_pass_plans_zero_draw_calls() {
    let frame = frame_with_textures(vec![]);
    let text = TextVertexContainer::new();
    let calls = frame.pass.draw_inline(&text);
    assert_eq!(calls, Vec::<DrawCall>::new());
}

#[test]
fn draw_plan_orders_triangle_image_text_with_batch_offsets() {
    let mut frame = frame_with_textures(vec![1, 2]);
    let handle = |h| ImageHandle::Texture { handle: h, width: 8, height: 8 };
    render(
        &mut frame,
        AmethystIcedPrimitive::Group(vec![
            AmethystIcedPrimitive::Quad(rect(0, 0, 10, 10), None),
            AmethystIcedPrimitive::Image(rect(0, 0, 10, 10), handle(1)),
            AmethystIcedPrimitive::Image(rect(0, 0, 10, 10), handle(2)),
        ]),
    );
    // Bind the atlas so the text pipeline draws.
    frame.atlas.ensure(256, 256);
    frame.pass.text_pipeline.bind_texture_id(&frame.atlas);
    let text = TextVertexContainer(vec![
        amethyst_iced::TextVertex { x: 0, y: 0, u: 0, v: 0, color: color(0, 0, 0, 255) };
        6
    ]);
    let calls = frame.pass.draw_inline(&text);
    assert_eq!(
        calls,
        vec![
            DrawCall::Triangle { vertex_count: 6 },
            DrawCall::Image { texture_slot: 0, first_vertex: 0, vertex_count: 6 },
            DrawCall::Image { texture_slot: 1, first_vertex: 6, vertex_count: 6 },
            DrawCall::Text { texture_slot: 0, vertex_count: 6 },
        ]
    );
}

#[test]
fn text_pipeline_skips_draw_while_atlas_unbound() {
    let frame = frame_with_textures(vec![]);
    let text = TextVertexContainer(vec![amethyst_iced::TextVertex {
        x: 0,
        y: 0,
        u: 0,
        v: 0,
        color: color(0, 0, 0, 255),
    }]);
    // Atlas never bound: no text draw call even though vertices exist.
    assert_eq!(frame.pass.draw_inline(&text), Vec::<DrawCall>::new());
}

#[test]
fn prepare_consumes_the_tree_and_resets_per_frame_state() {
    let mut frame = frame_with_textures(vec![42]);
    let tree = AmethystIcedPrimitive::Group(vec![
        AmethystIcedPrimitive::Quad(rect(0, 0, 10, 10), None),
        AmethystIcedPrimitive::Image(
            rect(0, 0, 10, 10),
            ImageHandle::Texture { handle: 42, width: 8, height: 8 },
        ),
    ]);
    let mut primitives = IcedPrimitives(Some(tree), 77);
    frame.pass.prepare(
        &mut primitives,
        &frame.resolver,
        &frame.fonts,
        &mut frame.glyphs,
        &frame.atlas,
    );
    assert!(primitives.0.is_none());
    assert_eq!(primitives.1, 77);
    assert_eq!(frame.pass.triangle_pipeline.vertices.len(), 6);
    assert_eq!(frame.pass.image_pipeline.textures, vec![42]);

    // Next frame with no tree: accumulators and bindings are frame-scoped.
    let mut empty = IcedPrimitives::default();
    frame.pass.prepare(
        &mut empty,
        &frame.resolver,
        &frame.fonts,
        &mut frame.glyphs,
        &frame.atlas,
    );
    assert_eq!(frame.pass.triangle_pipeline.vertices.len(), 0);
    assert_eq!(frame.pass.image_pipeline.textures.len(), 0);
    assert_eq!(frame.pass.image_pipeline.batches.len(), 0);
}

#[test]
fn image_handle_reports_dimensions_and_converts_from_tuple() {
    let handle = ImageHandle::from((9u64, 320u32, 240u32));
    assert_eq!(handle.dimensions(), (320, 240));
    assert_eq!(handle, ImageHandle::Texture { handle: 9, width: 320, height: 240 });
}

#[test]
fn default_primitives_holds_no_tree() {
    let p = IcedPrimitives::default();
    assert!(p.0.is_none());
    assert_eq!(p.1, 0);
}
