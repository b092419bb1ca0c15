[package]
name = "bot"
version = "0.1.0"
edition = "2021"
publish = false

[dependencies]
base64 = "*"
serde = { version = "*", features = ["derive"] }
time = { version = "*", features = ["macros", "formatting"] }
tokio = { version = "*", features = ["full"] }
toml = "*"
tracing = "*"
tracing-appender = "*"
tracing-subscriber = { version = "*", features = ["fmt", "time"] }
