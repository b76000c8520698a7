[package]
name = "portcullis"
version = "0.1.0"
edition = "2021"
publish = false

[dependencies]
glam = "=0.34.1"
glow = "=0.13.1"
glow_glyph = "=0.7.0"
image = "=0.24.9"
keyframe = "=1.1.1"
reqwest = "=0.11.27"
sdl2 = "=0.38.0"
serde_json = "=1.0.154"
tokio = { version = "=1.54.1", features = ["macros", "rt-multi-thread", "time"] }
