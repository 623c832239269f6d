[package]
name = "sea_streamer"
version = "0.1.0"
edition = "2021"
publish = false

[dependencies]
async-trait = "=0.1.92"
flume = { version = "=0.10.14", default-features = false, features = ["async"] }
futures = "=0.3.34"
log = "=0.4.35"
redis = { version = "=0.22.4", default-features = false, features = ["tokio-comp"] }
time = { version = "=0.3.55", features = ["std"] }
