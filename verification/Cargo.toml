[package]
name = "home_gateway"
version = "0.1.0"
edition = "2021"
publish = false

[dependencies]
axum = "0.6"
axum-server = { version = "0.5", features = ["tls-rustls"] }
http = "0.2"
hyper = { version = "0.14", features = ["full"] }
jsonwebtoken = "9"
once_cell = "1"
serde = { version = "1", features = ["derive"] }
tower = "0.4"
tokio = { version = "1", features = ["macros", "rt-multi-thread"] }
