[package]
name = "image_processor"
version = "0.1.0"
edition = "2021"
publish = false

[dependencies]
rayon = "1"
tokio = { version = "1", features = ["fs", "io-util", "rt-multi-thread", "macros"] }
image = "0.25"
