[package]
name = "mountain_mqtt"
version = "0.1.0"
edition = "2021"
publish = false

[dependencies]
heapless = "0.8"
serde = { version = "=1.0.229", default-features = false, features = ["derive"] }
serde-json-core = { version = "=0.7.0", default-features = false }
tokio = { version = "=1.54.1", features = ["net", "io-util", "time", "rt", "macros", "sync"] }
embedded-io-async = "0.6"
embedded-hal-async = "1"
