[package]
name = "glslang_safe"
version = "0.1.0"
edition = "2021"
publish = false

[dependencies]
bitflags = "1"
scopeguard = "1"
thiserror = "1"
serde = { version = "1", features = ["derive"] }
serde_json = "1"
bindgen = "*"
