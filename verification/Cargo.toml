[package]
name = "crust"
version = "0.1.0"
edition = "2021"
publish = false

[dependencies]
rand = "=0.8.8"
futures = "=0.1.31"
serde = { version = "=1.0.229", features = ["derive"] }
maidsafe_utilities = "=0.18.0"
tokio-core = "0.1"
tokio-io = "0.1"
bytes = "0.4"
