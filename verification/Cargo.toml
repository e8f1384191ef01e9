[package]
name = "durable_catalog"
version = "0.1.0"
edition = "2021"
publish = false

[dependencies]
anyhow = "=1.0.104"
async-trait = "=0.1.92"
crossbeam = "=0.8.5"
differential-dataflow = "=0.12.0"
fail = "=0.5.1"
fancy-regex = "=0.11.0"
rdkafka = "=0.39.0"
regex = "=1.13.1"
serde = { version = "=1.0.229", features = ["derive"] }
thiserror = "=1.0.69"
timely = "=0.12.0"
tokio = { version = "=1.54.1", features = ["rt"] }
tracing = "=0.1.44"
