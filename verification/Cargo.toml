[package]
name = "file_manager"
version = "0.1.0"
edition = "2021"
publish = false

[dependencies]
anyhow = "1"
chrono = "0.4"
clap = "4"
crossterm = "0.28"
indicatif = "0.17"
ratatui = "0.29"
rayon = "1"
serde = { version = "1", features = ["derive"] }
serde_yaml = "0.9"
sha2 = "0.10"
walkdir = "2"
whoami = "1"
