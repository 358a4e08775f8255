[package]
name = "block_layout"
version = "0.1.0"
edition = "2021"
publish = false

[dependencies]
ab_glyph = "0.2"
clap = { version = "4", features = ["derive"] }
serde_json = "1"
jsonschema = { version = "*", default-features = false }
printpdf = { version = "0.7", features = ["embedded_images"] }
image = "0.24"
