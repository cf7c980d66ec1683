[package]
name = "ecowitt_exporter"
version = "0.1.0"
edition = "2021"
publish = false

[dependencies]
anyhow = "1"
clap = { version = "4", features = ["derive"] }
prometheus = "0.13"
regex = "1"
tokio = { version = "1", features = ["macros", "rt-multi-thread"] }
url = "2"
warp = "0.3"
