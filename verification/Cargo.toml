[package]
name = "amethyst_iced"
version = "0.1.0"
edition = "2021"
publish = false

[dependencies]
glyph_brush = "0.6"
iced_native = "0.2"
