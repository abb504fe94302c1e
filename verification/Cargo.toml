[package]
name = "orderly"
version = "1.0.0"
edition = "2021"
publish = false

[dependencies]
chrono = "0.4"
clap = "3"
log = "0.4"
notify = "6"
serde = { version = "1", features = ["derive"] }
serde_yaml = "0.9"
simplelog = "0.12"
thiserror = "1"
trash = "3"

[dev-dependencies]
tempfile = "3"
