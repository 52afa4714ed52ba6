[package]
name = "fnlock"
version = "0.1.0"
edition = "2021"
publish = false

[dependencies]
clap = { version = "4", features = ["derive"] }
eframe = { version = "0.31", default-features = false, features = ["default_fonts", "glow", "x11"] }
env_logger = "0.11"
hidapi = { version = "2", default-features = false, features = ["linux-native-basic-udev"] }
log = "0.4"
