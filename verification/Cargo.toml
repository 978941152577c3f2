[package]
name = "cell_payments"
version = "0.1.0"
edition = "2021"
publish = false

[dependencies]
anyhow = "1"
async-trait = "0.1"
aws-config = { version = "*", default-features = false, features = ["default-https-client", "rt-tokio"] }
aws-sdk-dynamodb = "*"
axum = "*"
bb8 = "*"
cassandra-cpp = "*"
charybdis = "*"
chrono = "0.4"
dyn-clone = "1"
fred = "*"
futures = "0.3"
metrics = "*"
metrics-exporter-prometheus = { version = "*", default-features = false }
reqwest = { version = "*", default-features = false }
scylla = "*"
serde = { version = "1", features = ["derive"] }
serde_json = "1"
stargate-grpc = "*"
time = { version = "0.3", features = ["serde"] }
tokio = { version = "1", features = ["macros", "net", "rt-multi-thread", "time"] }
