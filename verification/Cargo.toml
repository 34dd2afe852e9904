[package]
name = "kafka_flow"
version = "0.1.0"
edition = "2021"
publish = false

[dependencies]
async-stream = "*"
bytes = "*"
chrono = "*"
flowly = "*"
futures = "*"
log = "*"
rdkafka = "*"
serde = { version = "*", features = ["derive"] }
thiserror = "*"
