[package]
name = "twoliter"
version = "0.1.0"
edition = "2021"
publish = false

[dependencies]
anyhow = "=1.0.104"
clap = { version = "=4.6.7", features = ["derive"] }
env_logger = "=0.10.2"
flate2 = "=1.1.10"
fs_extra = "1"
log = "=0.4.34"
serde = { version = "1", features = ["derive"] }
tar = "=0.4.46"
tempfile = "=3.27.0"
tokio = { version = "=1.54.1", features = ["fs", "macros", "process", "rt-multi-thread"] }
toml = "0.8"
