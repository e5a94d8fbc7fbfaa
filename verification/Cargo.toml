[package]
name = "dataman"
version = "0.1.0"
edition = "2021"
publish = false

[dependencies]
rusqlite = { version = "=0.31.0", features = ["functions", "backup"] }
regex = "=1.13.1"
csv = "=1.4.0"
crossterm = "=0.27.0"
ratatui = "=0.26.3"
clap = { version = "=4.6.7", features = ["derive"] }
log = "=0.4.35"
env_logger = "=0.11.11"
serde = { version = "=1.0.229", features = ["derive"] }
once_cell = "=1.21.4"
