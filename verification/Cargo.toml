[package]
name = "agent2mqtt"
version = "0.1.0"
edition = "2021"
publish = false

[dependencies]
paho-mqtt = { version = "0.12", default-features = false, features = ["bundled"] }
tokio = { version = "1", default-features = false, features = ["rt", "macros", "sync", "time"] }
tokio-seqpacket = "*"
tokio-stream = { version = "0.1", default-features = false }
