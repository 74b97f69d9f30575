[package]
name = "cyberengine"
version = "0.1.0"
edition = "2021"
publish = false

[dependencies]
cgmath = "0.17"
gfx = "0.18"
gfx_core = "0.9"
gfx_device_gl = "0.16"
gfx_window_glutin = "0.31"
glutin = "0.21"
image = "0.23"
rand = "0.8"
serde = { version = "1", features = ["derive"] }
serde_json = "1"
shred = "0.10"
specs = "0.16"
toml = "0.7"
