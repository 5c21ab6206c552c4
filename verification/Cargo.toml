[package]
name = "recomp"
version = "0.1.0"
edition = "2021"
publish = false

[dependencies]
anyhow = "1"
tokio = { version = "1", features = ["rt-multi-thread", "macros"] }
tracing = "0.1"
wgpu = "0.19"
x11rb = { version = "0.13", features = ["allow-unsafe-code", "composite", "damage", "shape", "xfixes"] }
x11rb-async = { version = "0.13", features = ["composite", "damage", "shape", "xfixes"] }
