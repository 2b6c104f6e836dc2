[package]
name = "rysyn"
version = "0.1.0"
edition = "2021"
publish = false

[dependencies]
crossbeam-channel = "=0.5.17"
parking_lot = "0.12"
serde = { version = "1", features = ["derive"] }
serde_json = "1"
symphonia = "0.5"
dirs = "6"
env_logger = "0.11"
eframe = { version = "0.31", default-features = false, features = ["glow", "x11", "default_fonts"] }
pyo3 = "0.23"
