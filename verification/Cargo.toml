[package]
name = "deepfake"
version = "0.1.0"
edition = "2021"
publish = false

[dependencies]
image = { version = "0.25", default-features = false, features = ["jpeg"] }
num-complex = "0.4"
rustfft = "6"
