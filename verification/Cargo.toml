[package]
name = "mdo_cdr"
version = "0.1.0"
edition = "2021"
publish = false

[dependencies]
aho-corasick = "1"
sha2 = "0.10"
hex = "0.4"
hmac = "0.12"
infer = "0.19"
serde = { version = "1", features = ["derive"] }
serde_json = "1"
prost = "0.13"
arc-swap = "1"
symphonia = "0.5"
tempfile = "3"
thiserror = "2"
image = { version = "0.25", default-features = false, features = ["png", "jpeg", "gif", "webp", "bmp", "tiff"] }
gif = "0.13"
