[package]
name = "rendertoy"
version = "0.1.0"
edition = "2021"
publish = false

[dependencies]
shaderc = "*"
spirv-reflect = "*"
shader-prepper = "*"
tokio = { version = "*", features = ["rt", "macros"] }
clap = "*"
failure = "*"
