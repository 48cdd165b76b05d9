[package]
name = "ml_chess"
version = "0.1.0"
edition = "2021"
publish = false

[dependencies]
shakmaty = "0.27"
rand = "0.9"
anyhow = "1"
thiserror = "2"
burn = { version = "0.16", default-features = false, features = ["std", "ndarray", "autodiff"] }
ratatui = "0.29"
crossterm = "0.28"
clap = { version = "4", features = ["derive"] }
serde = { version = "1", features = ["derive"] }
serde_json = "1"
rayon = "1"
indicatif = { version = "0.17", features = ["rayon"] }
