[package]
name = "smithay_wallpaper"
version = "0.1.0"
edition = "2021"
publish = false

[dependencies]
image = { version = "=0.25.10", default-features = false, features = ["png", "jpeg"] }
smithay = { version = "=0.3.0", default-features = false, features = ["renderer_gl"] }
slog = "=2.8.2"
lazy_static = "=1.5.1"
