[package]
name = "bonsaimq"
version = "0.2.0"
edition = "2021"
publish = false

[dependencies]
bonsaidb = { version = "=0.5.0", default-features = false }
bonsaidb-core = { version = "=0.5.0", default-features = false }
erased_set = "=0.8.0"
getrandom = "=0.2.17"
serde = { version = "=1.0.229", features = ["derive"] }
serde_json = "=1.0.154"
thiserror = "=1.0.69"
time = "=0.3.55"
tokio = { version = "=1.54.1", features = ["rt", "time", "sync", "macros"] }
tokio-retry = "=0.3.2"
tracing = "=0.1.44"
tracing-futures = "=0.2.5"
