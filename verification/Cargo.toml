[package]
name = "add_service"
version = "0.1.0"
edition = "2021"
publish = false

[dependencies]
failure = "0.1"
hyper = "0.13"
log = "0.4"
serde = { version = "1", features = ["derive"] }
serde_json = "1"
serde_urlencoded = "0.6"
simple_logger = "1"
sqlx = { version = "0.3", default-features = false, features = ["postgres", "runtime-tokio"] }
tokio = { version = "0.2", features = ["full"] }
