[package]
name = "winghost"
version = "0.1.0"
edition = "2021"
publish = false

[dependencies]
serde = { version = "=1.0.229", features = ["derive"] }
toml = "=1.2.1"
eframe = { version = "=0.33.3", default-features = false, features = ["default_fonts", "glow", "x11"] }
