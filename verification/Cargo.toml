[package]
name = "simon_says"
version = "0.1.0"
edition = "2021"
publish = false

[dependencies]
rand = { version = "=0.7.3", default-features = false, features = ["small_rng"] }
cortex-m = "0.7"
cortex-m-rt = "0.7"
embedded-hal = { version = "0.2", features = ["unproven"] }
embedded-time = "0.12"
rp-pico = "0.7"
