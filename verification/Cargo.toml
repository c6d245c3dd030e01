[package]
name = "scarb_config"
version = "0.1.0"
edition = "2021"
publish = false

[dependencies]
anyhow = "1"
camino = "1"
once_cell = "1"
tracing = "0.1"
which = "4"
