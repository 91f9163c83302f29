[package]
name = "spectralfilm"
version = "0.1.0"
edition = "2021"
publish = false

[dependencies]
serde = { version = "1", features = ["derive"] }
serde_json = "1"
rand = "0.8"
rand_distr = "0.4"
rayon = "1"
rustfft = "6"
log = "0.4"
jni = "0.21"
android_logger = "0.13"
