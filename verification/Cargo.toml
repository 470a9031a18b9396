[package]
name = "cmd_compressor"
version = "0.1.0"
edition = "2021"
publish = false

[dependencies]
clap = { version = "4.5", features = ["derive"] }
eframe = { version = "0.31", default-features = false, features = ["default_fonts", "glow", "x11"] }
egui = { version = "0.31", default-features = false }
image = { version = "0.25", default-features = false, features = ["jpeg", "png"] }
rfd = { version = "0.15", default-features = false, features = ["xdg-portal", "tokio"] }
