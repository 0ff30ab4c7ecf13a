[package]
name = "mqtt_core"
version = "0.1.0"
edition = "2021"
publish = false

[dependencies]
rust-mqtt = "=0.3.1"
heapless = "=0.8.0"
embedded-svc = "=0.28.1"
tokio = { version = "=1.54.1", features = ["net", "rt", "macros", "time", "io-util"] }
