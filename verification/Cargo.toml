[package]
name = "audiocue"
version = "0.1.0"
edition = "2021"
publish = false

[dependencies]
awedio = { version = "=0.8.0", default-features = false, features = ["symphonia-all", "qoa"] }
