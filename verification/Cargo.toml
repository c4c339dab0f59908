[package]
name = "pizza_catalog"
version = "0.1.0"
edition = "2021"
publish = false

[dependencies]
actix-web = "4"
serde = { version = "1", features = ["derive"] }
uuid = { version = "1", features = ["v4"] }
validator = { version = "*", features = ["derive"] }

[dev-dependencies]
serde_json = "1"
