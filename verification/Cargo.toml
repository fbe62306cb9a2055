[package]
name = "spironmc"
version = "0.1.0"
edition = "2021"
publish = false

[dependencies]
serde = { version = "1", features = ["derive"] }
toml = "*"
thiserror = "*"
ctrlc = "*"
getrandom = "0.3"
tracing = "*"
tracing-subscriber = { version = "*", features = ["env-filter", "fmt"] }
