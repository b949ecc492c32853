[package]
name = "product-service"
version = "0.1.0"
edition = "2021"
publish = false

[dependencies]
actix-cors = "0.7"
actix-web = { version = "4", default-features = false, features = ["macros"] }
bytes = "1"
env_logger = "0.11"
futures-util = "0.3"
serde = { version = "1", features = ["derive"] }
serde_json = "1"
