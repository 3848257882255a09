[package]
name = "panopticon"
version = "0.1.0"
edition = "2021"
publish = false

[dependencies]
anyhow = "1"
eframe = { version = "0.20", default-features = false, features = ["glow"] }
env_logger = { version = "0.10", default-features = false }
log = "0.4"
