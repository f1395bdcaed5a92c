[package]
name = "spanner_admin"
version = "0.1.0"
edition = "2021"
publish = false

[dependencies]
google-cloud-googleapis = { version = "=0.16.1", features = ["spanner"] }
prost = "0.13"
tonic = "0.12"
tokio = { version = "1", features = ["time"] }
