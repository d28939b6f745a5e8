[package]
name = "phobetor"
version = "0.1.0"
edition = "2021"
publish = false

[dependencies]
color-eyre = "*"
glam = "*"
manifest-dir-macros = "*"
stardust-xr-fusion = "*"
stardust-xr-molecules = "*"
tokio = { version = "*", features = ["rt", "macros", "signal", "sync"] }
