[package]
name = "flint"
version = "0.1.0"
edition = "2021"
publish = false

[dependencies]
eframe = { version = "=0.34.3", default-features = false, features = ["default_fonts", "glow", "wayland", "x11"] }
egui = { version = "=0.34.3", default-features = false, features = ["default_fonts"] }
hex = "=0.4.3"
image = { version = "=0.25.10", default-features = false, features = ["png"] }
lzma-rs = "=0.3.0"
rfd = { version = "=0.17.2", default-features = false, features = ["xdg-portal"] }
serde = { version = "=1.0.229", features = ["derive"] }
serde_json = "=1.0.154"
sha2 = "=0.11.1"
zip = { version = "=7.4.0", default-features = false, features = ["deflate"] }
