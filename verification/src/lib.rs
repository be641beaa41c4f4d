//! Translation of abstract UI draw primitives into batched, per-pipeline
//! vertex lists, together with the glyph-cache and font-cache state that a
//! host renderer drives once per frame.
//!
//! Geometry is modelled in absolute integer pixel space; the host supplies
//! the projection into clip space when it uploads the accumulated buffers.
mod brush;
mod font_cache;
mod geometry;
mod glyph;
mod laws;
mod load_fonts;
mod pass;
mod pipelines;
mod primitive;
mod vertex;

pub use brush::ensure_atlas;
pub use font_cache::FontCache;
pub use font_cache::FontRecord;
pub use font_cache::FontState;
pub use geometry::Color;
pub use geometry::HorizontalAlignment;
pub use geometry::Rect;
pub use geometry::VerticalAlignment;
pub use glyph::BrushResponse;
pub use glyph::GlyphAtlas;
pub use glyph::GlyphCache;
pub use glyph::GlyphCacheView;
pub use glyph::GlyphQuad;
pub use glyph::ProcessOutcome;
pub use glyph::TextSection;
pub use glyph::TextSectionView;
pub use glyph::TextVertexContainer;
pub use glyph::glyph_vertices;
pub use glyph::glyphs_vertices;
pub use glyph::redraw_case;
pub use laws::lemma_clean_cache_redraws;
pub use laws::lemma_empty_pass_draws_nothing;
pub use laws::lemma_group_is_sequential;
pub use laws::lemma_group_pair;
pub use laws::lemma_image_translation;
pub use laws::lemma_nothing_renders_nothing;
pub use laws::lemma_quad_translation;
pub use laws::lemma_unresolved_image_skipped;
pub use load_fonts::LoadFontToCacheSystem;
pub use load_fonts::has_ready_name;
pub use pass::IcedPass;
pub use pass::IcedPassDesc;
pub use pass::empty_image_state;
pub use pass::opt_calls;
pub use pass::opt_image_output;
pub use pass::opt_text_output;
pub use pass::opt_triangle_output;
pub use pass::opt_wf;
pub use pipelines::DrawCall;
pub use pipelines::image::ImageBatch;
pub use pipelines::image::ImagePipeline;
pub use pipelines::image::ImageUniform;
pub use pipelines::image::batches_draw_calls;
pub use pipelines::image::batches_insert;
pub use pipelines::image::batches_vertex_total;
pub use pipelines::image::table_bind;
pub use pipelines::image::table_slot;
pub use pipelines::text::TextPipeline;
pub use pipelines::text::TextUniform;
pub use pipelines::triangle::TrianglePipeline;
pub use pipelines::triangle::TriangleUniform;
pub use primitive::AmethystIcedPrimitive;
pub use primitive::IcedPrimitives;
pub use primitive::ImageHandle;
pub use primitive::ImageState;
pub use primitive::TextureResolver;
pub use vertex::ImageVertex;
pub use vertex::TextVertex;
pub use vertex::TriangleVertex;
pub use vertex::quad_image_vertices;
pub use vertex::quad_triangle_vertices;
