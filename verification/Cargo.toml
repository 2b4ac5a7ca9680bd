[package]
name = "osc_clock"
version = "0.1.0"
edition = "2021"
publish = false

[dependencies]
chrono = "*"
rosc = "*"
serde_json = "*"
tokio = { version = "*", features = ["full"] }
clap = "*"
once_cell = "*"
vrchat_osc = "*"
