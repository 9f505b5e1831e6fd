[package]
name = "glyph_drawing"
version = "0.1.0"
edition = "2021"
publish = false

[dependencies]
norad = "*"
kurbo = "*"
