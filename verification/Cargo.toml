[package]
name = "hex_painter"
version = "0.1.0"
edition = "2021"
publish = false

[dependencies]
hexgridspiral = "=0.3.3"
bevy = { version = "=0.15.3", default-features = false, features = ["bevy_asset", "bevy_color", "bevy_core_pipeline", "bevy_picking", "bevy_render", "bevy_sprite", "bevy_text", "bevy_window", "webp"] }
js-sys = "=0.3.106"
log = "=0.4.34"
once_cell = "=1.21.4"
wasm-bindgen = "=0.2.129"
