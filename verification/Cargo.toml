[package]
name = "fetchloop"
version = "0.1.0"
edition = "2021"
publish = false

[dependencies]
num-format = "0.4"
uuid = { version = "1", features = ["v4"] }
hyper = { version = "0.14", features = ["client", "http1", "http2", "tcp"] }
hyper-tls = "0.5"
tokio = { version = "1", features = ["rt-multi-thread", "fs", "io-util", "time"] }
lazy_static = "1"
jni = "0.19"
