[package]
name = "umu_wrapper"
version = "0.1.0"
edition = "2021"
publish = false

[dependencies]
serde = { version = "*", features = ["derive"] }
toml = "*"
clap = { version = "*", features = ["derive", "env"] }
dirs = "*"
tracing = "*"
tracing-subscriber = { version = "*", features = ["env-filter"] }
