[package]
name = "qapi_mux"
version = "0.1.0"
edition = "2021"
publish = false

[dependencies]
serde = { version = "*", features = ["derive"] }
serde_json = "*"
tokio = { version = "*", features = ["io-util", "sync", "rt", "macros", "net", "time"] }
