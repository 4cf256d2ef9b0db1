[package]
name = "feed_proxy"
version = "0.1.0"
edition = "2021"
publish = false

[dependencies]
anyhow = "1"
atom_syndication = "0.12"
bytes = "1"
chrono = "0.4"
futures-util = "0.3"
http = "1"
http-body = "1"
http-body-util = "0.1"
hyper = { version = "1", features = ["client", "server", "http1", "http2"] }
listenfd = "1"
pin-project-lite = "0.2"
tokio = { version = "1", features = ["rt-multi-thread", "macros", "net", "io-util", "time"] }
tracing = "0.1"
tracing-subscriber = "0.3"
