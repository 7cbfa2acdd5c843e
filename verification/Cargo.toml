[package]
name = "hello-grpc-rust"
version = "0.1.0"
edition = "2021"
publish = false

[dependencies]
tonic = { version = "0.12", features = ["tls"] }
prost = "0.13"
tokio = { version = "1", features = ["full"] }
tokio-stream = "0.1"
async-stream = "0.3"
futures = "0.3"
chrono = "0.4"
uuid = { version = "1", features = ["v4"] }
rand = "0.8"
log = "0.4"
log4rs = "1"
hyper = { version = "0.14", features = ["server", "http1", "tcp"] }
serde = { version = "1", features = ["derive"] }
serde_json = "1"
thiserror = "1"
local-ip-address = "0.6"
tracing = "0.1"
tracing-subscriber = { version = "0.3", features = ["env-filter"] }
rustls = { version = "0.23", default-features = false, features = ["ring", "std", "logging", "tls12"] }
