[package]
name = "deskscope"
version = "0.1.0"
edition = "2021"
publish = false

[dependencies]
chrono = "0.4"
clap = { version = "4", features = ["derive"] }
drm-fourcc = "2"
image = { version = "0.25", default-features = false, features = ["png"] }
libcamera = "*"
rppal = "*"
serde = { version = "1", features = ["derive"] }
slint = { version = "1", default-features = false, features = ["std", "compat-1-2"] }
toml = "*"
