[package]
name = "saf_handler"
version = "0.1.0"
edition = "2021"
publish = false

[dependencies]
futures = "=0.3.34"
log = "=0.4.34"
serde = { version = "=1.0.229", features = ["derive"] }
tari_utilities = "=0.11.0"
tokio = { version = "=1.54.1", features = ["rt"] }
tower = { version = "=0.5.3", features = ["util"] }
