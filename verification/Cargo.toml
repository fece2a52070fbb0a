[package]
name = "frame_pacing"
version = "0.1.0"
edition = "2021"
publish = false

[dependencies]
glow = "=0.18.0"
glyph_brush_layout = "=0.2.4"
local-ip-address = "=0.6.13"
jni = "=0.22.4"
ndk-context = "=0.1.1"
