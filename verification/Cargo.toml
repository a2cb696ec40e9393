[package]
name = "krun"
version = "0.1.0"
edition = "2021"
publish = false

[dependencies]
serde_json = "=1.0.151"
serde = { version = "=1.0.229", features = ["derive"] }
anyhow = "=1.0.104"
log = "=0.4.34"
env_logger = "=0.11.11"
tempfile = "=3.27.0"
nix = { version = "=0.31.3", features = ["user"] }
rustix = { version = "=1.1.5", features = ["fs", "mount", "process", "system", "thread"] }
