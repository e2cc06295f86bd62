[package]
name = "deepspace_quic"
version = "0.1.0"
edition = "2021"
publish = false

[dependencies]
quinn-proto = { version = "0.11", default-features = false, features = ["rustls-ring", "log"] }
rustls = { version = "0.23", default-features = false, features = ["ring", "std", "logging", "tls12"] }
rcgen = { version = "*", default-features = false, features = ["ring"] }
anyhow = "1"
chrono = "0.4"
clap = { version = "4", features = ["derive"] }
directories-next = "2"
tokio = { version = "1", features = ["rt-multi-thread", "macros", "time"] }
tracing = "0.1"
tracing-subscriber = { version = "0.3", features = ["env-filter"] }
url = "2"
