[package]
name = "tecarius"
version = "0.1.0"
edition = "2021"
publish = false

[dependencies]
alpm = "*"
chrono = "*"
cross-xdg = "*"
crossterm = { version = "=0.29.0", features = ["event-stream"] }
futures = "*"
fuzzy-matcher = "=0.3.7"
nix = { version = "*", features = ["user"] }
pacmanconf = "*"
ratatui = "=0.30.2"
serde = { version = "*", features = ["derive"] }
thiserror = "*"
tokio = { version = "*", features = ["full"] }
toml = "*"
tui-input = "=0.15.5"
