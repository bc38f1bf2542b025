[package]
name = "json_rpc_backend"
version = "0.1.0"
edition = "2021"
publish = false

[dependencies]
serde = { version = "*", features = ["derive"] }
serde_json = "*"
ntex = { version = "*", features = ["tokio"] }
tokio = { version = "*", features = ["rt"] }
http = "*"
env_logger = "*"
dotenv = "*"

[dev-dependencies]
regex = "*"
