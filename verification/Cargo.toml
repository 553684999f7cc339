[package]
name = "arkivisto"
version = "0.1.0"
edition = "2021"
publish = false

[dependencies]
anyhow = "1"
app_dirs2 = "2"
chrono = "0.4"
clap = { version = "4", features = ["derive"] }
indicatif = "*"
inquire = "*"
serde = { version = "1", features = ["derive"] }
toml = "*"
tracing = "0.1"
tracing-subscriber = "0.3"
