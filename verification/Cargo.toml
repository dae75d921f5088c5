[package]
name = "via"
version = "0.1.0"
edition = "2021"
publish = false

[dependencies]
base64 = "0.22"
bytes = "1"
cookie = { version = "0.18", features = ["percent-encode"] }
futures-channel = "0.3"
futures-core = "0.3"
futures-sink = "0.3"
futures-task = "0.3"
http = "1"
http-body = "1"
http-body-util = "0.1"
hyper = { version = "1", features = ["server", "http1"] }
hyper-util = { version = "0.1", features = ["tokio"] }
percent-encoding = "2"
ring = "0.17"
serde = { version = "1", features = ["derive"] }
serde_json = "1"
tokio = { version = "1", features = ["macros", "net", "rt", "signal", "sync", "time", "io-util"] }
tokio-tungstenite = "*"
tungstenite = "*"
