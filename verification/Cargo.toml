[package]
name = "redis_conn"
version = "0.1.0"
edition = "2021"
publish = false

[dependencies]
redis = { version = "0.24", features = ["tokio-comp", "cluster-async"] }
chrono = "0.4"
rand = "0.8"
tokio = { version = "1", features = ["full"] }
futures = "0.3"
serde = { version = "1", features = ["derive"] }
serde_json = "1"
ssh_jumper = "*"
