[package]
name = "cgw_proxy"
version = "0.1.0"
edition = "2021"
publish = false

[dependencies]
eui48 = "1.1"
futures-util = "0.3"
log = "0.4"
tokio = { version = "1", features = ["macros", "net", "rt-multi-thread", "sync", "time"] }
tokio-rustls = { version = "0.26", default-features = false, features = ["tls12"] }
tokio-tungstenite = "0.23"
tungstenite = "0.23"
