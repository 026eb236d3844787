[package]
name = "fragment_upload"
version = "0.1.0"
edition = "2021"
publish = false

[dependencies]
dashmap = "*"
uuid = { version = "*", features = ["v4"] }
sysinfo = "*"
axum = "*"
axum-core = "*"
tokio = { version = "*", features = ["full"] }
futures = "*"
bytes = "*"
serde = { version = "*", features = ["derive"] }
serde_json = "*"
http = "*"
tower-http = { version = "*", features = ["fs"] }
