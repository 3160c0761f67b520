[package]
name = "dirpurge"
version = "0.1.0"
edition = "2021"
publish = false

[dependencies]
chrono = "0.4"
clap = "4"
console = "0.15"
csv = "1"
env_logger = "0.11"
indicatif = "0.17"
log = "0.4"
serde = { version = "1", features = ["derive"] }
serde_json = "1"
trash = "5"
walkdir = "2"
zip = "2"
