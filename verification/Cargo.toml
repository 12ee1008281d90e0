[package]
name = "monster_player"
version = "0.1.0"
edition = "2021"
publish = false

[dependencies]
fastrand = "2"
image = { version = "0.25", default-features = false, features = ["png", "jpeg"] }
ureq = { version = "3", features = ["json"] }
serde = { version = "1", features = ["derive"] }
serde_json = "1"
toml = "0.8"
directories = "6"
ratatui = "0.29"
crossterm = "0.28"
rodio = { version = "0.20", default-features = false, features = ["wav"] }
rustfft = "6"
thiserror = "2"
anyhow = "1"
clap = { version = "4", features = ["derive"] }
env_logger = "0.11"
tempfile = "3"
