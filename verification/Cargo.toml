[package]
name = "matrixbot"
version = "0.1.0"
edition = "2021"
publish = false

[dependencies]
clap = { version = "=4.6.7", default-features = false, features = ["derive", "std", "help", "usage", "error-context"] }
eyre = "0.6"
futures = "0.3"
futures-util = "0.3"
matrix-sdk = "=0.11.0"
matrix-sdk-base = "=0.11.0"
pinentry = "=0.8.0"
ruma = { version = "=0.12.3", features = ["compat-arbitrary-length-ids", "compat-user-id", "events"] }
rustyline = "=19.0.0"
secrecy = "=0.10.3"
serde = { version = "1", features = ["derive"] }
serde_json = "=1.0.154"
tokio = { version = "=1.54.1", features = ["rt", "net", "io-util", "signal", "time"] }
tracing = "0.1"
tracing-subscriber = { version = "=0.3.23", features = ["env-filter", "chrono"] }
url = { version = "2", features = ["serde"] }
