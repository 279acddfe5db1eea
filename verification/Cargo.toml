[package]
name = "softether_exporter"
version = "0.1.0"
edition = "2021"
publish = false

[dependencies]
anyhow = "1"
csv = "1"
hyper = "0.10"
prometheus = "*"
serde = { version = "1", features = ["derive"] }
structopt = "0.3"
toml = "*"
