[package]
name = "sep2_client"
version = "0.1.0"
edition = "2021"
publish = false

[dependencies]
sep2_common = { version = "=0.2.0", features = ["pubsub", "drlc", "time"] }
anyhow = "=1.0.104"
log = "=0.4.34"
hyper = { version = "=0.14.32", features = ["server", "http1"] }
tokio = { version = "=1.53.2", features = ["full"] }
openssl = "=0.10.81"
tokio-openssl = "=0.6.5"
