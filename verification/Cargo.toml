[package]
name = "tcp_console"
version = "0.1.0"
edition = "2021"
publish = false

[dependencies]
tokio = { version = "1", features = ["net", "sync", "rt-multi-thread", "macros", "io-util"] }
tokio-util = { version = "0.7", features = ["codec"] }
futures-util = { version = "0.3", features = ["sink"] }
bytes = "1"
tracing = "0.1"
thiserror = "1"

[dev-dependencies]
bcs = "=0.1.6"
