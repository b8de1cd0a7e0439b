[package]
name = "contain"
version = "0.1.0"
edition = "2021"
publish = false

[dependencies]
hex = "*"
rand = "*"
qcow2-rs = "*"
serde = { version = "*", features = ["derive"] }
serde_json = "*"
tokio = { version = "*", features = ["full"] }
hyper = { version = "*", features = ["full"] }
hyper-util = { version = "*", features = ["full"] }
http = "*"
http-body-util = "*"
hyperlocal = "*"
axum = "*"
shared_child = "*"
