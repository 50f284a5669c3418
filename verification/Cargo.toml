[package]
name = "shader_layer"
version = "0.1.0"
edition = "2021"
publish = false

[dependencies]
glow = "*"
khronos-egl = { version = "6", features = ["static"] }
tracing = "0.1"
wayland-client = "0.31"
wayland-egl = "0.32"
wayland-protocols-wlr = { version = "0.3", features = ["client"] }
