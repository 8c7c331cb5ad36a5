[package]
name = "kafka_ingest"
version = "0.1.0"
edition = "2021"
publish = false

[dependencies]
serde_json = "*"
apache-avro = "*"
prost-reflect = { version = "*", features = ["serde"] }
prost = "*"
