[package]
name = "qrserve"
version = "0.1.0"
edition = "2021"
publish = false

[dependencies]
axum = "=0.8.9"
local-ip-address = "=0.6.13"
mime_guess = "=2.0.5"
qrcode-generator = "=5.0.0"
rust-embed = { version = "=8.13.0", features = ["interpolate-folder-path"] }
tokio = { version = "=1.54.1", features = ["macros", "rt-multi-thread", "net"] }

[dev-dependencies]
image = { version = "=0.25.10", default-features = false, features = ["png"] }
rqrr = "=0.11.0"
