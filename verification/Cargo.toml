[package]
name = "mtexteditor"
version = "0.1.0"
edition = "2021"
publish = false

[dependencies]
eframe = { version = "=0.20.1", default-features = false, features = ["default_fonts", "glow"] }
rfd = { version = "=0.17.2", default-features = false, features = ["xdg-portal"] }
