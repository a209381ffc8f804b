[package]
name = "driver_images"
version = "0.1.0"
edition = "2021"
publish = false

[dependencies]
anyhow = "1"
aws-config = "1"
clap = { version = "4", features = ["derive"] }
env_logger = "0.11"
futures = "0.3"
log = "0.4"
ratatui = "=0.29.0"
strum_macros = "0.26"
tabled = "=0.22.0"
tokio = { version = "1", features = ["macros", "rt-multi-thread"] }
unicode-width = "=0.2.0"
