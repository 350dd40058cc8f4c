[package]
name = "honcho_ai"
version = "0.1.0"
edition = "2021"
publish = false

[dependencies]
serde = { version = "=1.0.229", features = ["derive"] }
serde_json = "=1.0.154"
serde_path_to_error = "=0.1.20"
reqwest = { version = "=0.12.28", default-features = false, features = ["json", "stream", "multipart"] }
futures-util = "=0.3.34"
bytes = "=1.12.1"
tokio = { version = "=1.54.1", features = ["rt", "rt-multi-thread", "sync", "time", "macros", "io-util"] }
chrono = { version = "=0.4.45", default-features = false, features = ["std", "clock"] }
httpdate = "=1.0.3"
url = "=2.5.8"
async-stream = "=0.3.6"
thiserror = "=2.0.21"
