[package]
name = "vopono"
version = "0.1.0"
edition = "2021"
publish = false

[dependencies]
anyhow = "1"
clap = "2"
csv = "1"
dialoguer = "0.6"
log = "0.4"
pretty_env_logger = "0.4"
rand = "0.7"
serde = { version = "1", features = ["derive"] }
serde_json = "1"
structopt = "0.3"
