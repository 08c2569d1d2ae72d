[package]
name = "media_staging"
version = "0.1.0"
edition = "2021"
publish = false

[dependencies]
jni = "0.21"
lazy_static = "1"
log = "0.4"
ndk-context = "0.1"
serde = { version = "1", features = ["derive"] }
serde_json = "1"
