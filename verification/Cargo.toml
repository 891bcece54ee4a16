[package]
name = "edc_operator"
version = "0.1.0"
edition = "2021"
publish = false

[dependencies]
anyhow = "=1.0.104"
clap = { version = "=4.5.61", features = ["derive"] }
serde = { version = "=1.0.229", features = ["derive"] }
serde_json = "*"
snafu = "=0.8.9"
strum = { version = "=0.26.3", features = ["derive"] }
