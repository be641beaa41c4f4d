//! Behaviour of the font cache: pending entries, promotion, and stable
//! rasterizer ids picked up by later text runs.
use amethyst_iced::AmethystIcedPrimitive;
use amethyst_iced::Color;
use amethyst_iced::FontCache;
use amethyst_iced::GlyphAtlas;
use amethyst_iced::GlyphCache;
use amethyst_iced::HorizontalAlignment;
use amethyst_iced::IcedPassDesc;
use amethyst_iced::Rect;
use amethyst_iced::TextureResolver;
use amethyst_iced::VerticalAlignment;

fn arial_text() -> AmethystIcedPrimitive {
    AmethystIcedPrimitive::Text {
        bounds: Rect { x: 0, y: 0, width: 100, height: 20 },
        content: String::from("hi"),
        size: 12,
        color: Color { r: 0, g: 0, b: 0, a: 255 },
        horizontal_alignment: HorizontalAlignment::Left,
        vertical_alignment: VerticalAlignment::Top,
        font: String::from("Arial"),
    }
}

#[test]
fn inserted_font_starts_pending_and_stays_pending_until_resolved() {
    let mut fonts = FontCache::new();
    fonts.insert(String::from("Arial"), 7);
    let name = String::from("Arial");
    assert!(fonts.is_pending(&name));
    assert_eq!(fonts.get_handle(&name), Some(7));
    // A load tick while the asset is not ready changes nothing.
    assert_eq!(fonts.get_id(&name), None);
    assert!(fonts.is_pending(&name));
}

#[test]
fn resolution_promotes_once_and_the_id_is_stable() {
    let mut fonts = FontCache::new();
    fonts.insert(String::from("Arial"), 7);
    let name = String::from("Arial");
    // The asset resolves; the next tick imports it under the id the
    // rasterizer assigned.
    fonts.mark_loaded(&name, 3);
    assert!(!fonts.is_pending(&name));
    assert_eq!(fonts.get_id(&name), Some(3));
    // Later ticks see a ready entry and leave the id alone.
    assert_eq!(fonts.get_id(&name), Some(3));
    assert_eq!(fonts.get_handle(&name), Some(7));
}

#[test]
fn later_text_runs_reuse_the_assigned_font_id() {
    let mut fonts = FontCache::new();
    fonts.insert(String::from("Arial"), 7);
    fonts.mark_loaded(&String::from("Arial"), 3);

    let mut pass = IcedPassDesc.build(800, 600);
    let resolver = TextureResolver { loaded: vec![] };
    let mut glyphs = GlyphCache::new();
    let _atlas = GlyphAtlas::new();
    arial_text().render(&mut pass, &resolver, &fonts, &mut glyphs);
    assert_eq!(glyphs.pending_sections()[0].font_id, 3);
}

#[test]
fn unknown_font_falls_back_to_default_id() {
    let fonts = FontCache::new();
    let mut pass = IcedPassDesc.build(800, 600);
    let resolver = TextureResolver { loaded: vec![] };
    let mut glyphs = GlyphCache::new();
    arial_text().render(&mut pass, &resolver, &fonts, &mut glyphs);
    assert_eq!(glyphs.pending_sections()[0].font_id, 0);
}

#[test]
fn pending_font_falls_back_to_default_id_until_ready() {
    let mut fonts = FontCache::new();
    fonts.insert(String::from("Arial"), 7);
    let mut pass = IcedPassDesc.build(800, 600);
    let resolver = TextureResolver { loaded: vec![] };
    let mut glyphs = GlyphCache::new();
    arial_text().render(&mut pass, &resolver, &fonts, &mut glyphs);
    assert_eq!(glyphs.pending_sections()[0].font_id, 0);
}

#[test]
fn reinserting_a_font_remarks_it_pending_with_the_new_handle() {
    let mut fonts = FontCache::new();
    fonts.insert(String::from("Arial"), 7);
    fonts.mark_loaded(&String::from("Arial"), 3);
    fonts.insert(String::from("Arial"), 8);
    let name = String::from("Arial");
    assert!(fonts.is_pending(&name));
    assert_eq!(fonts.get_handle(&name), Some(8));
    assert_eq!(fonts.get_id(&name), None);
}

#[test]
fn marking_an_unknown_name_is_ignored() {
    let mut fonts = FontCache::new();
    fonts.mark_loaded(&String::from("Nowhere"), 5);
    assert_eq!(fonts.get_id(&String::from("Nowhere")), None);
    assert_eq!(fonts.get_handle(&String::from("Nowhere")), None);
    assert!(!fonts.is_pending(&String::from("Nowhere")));
}

#[test]
fn distinct_fonts_keep_distinct_entries() {
    let mut fonts = FontCache::new();
    fonts.insert(String::from("Arial"), 1);
    fonts.insert(String::from("Square"), 2);
    fonts.mark_loaded(&String::from("Square"), 9);
    assert!(fonts.is_pending(&String::from("Arial")));
    assert_eq!(fonts.get_id(&String::from("Square")), Some(9));
    assert_eq!(fonts.get_handle(&String::from("Arial")), Some(1));
}
