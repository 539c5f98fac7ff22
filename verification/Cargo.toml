[package]
name = "fldp_rust_backend_template"
version = "0.1.0"
edition = "2021"
publish = false

[dependencies]
bcrypt = "=0.19.3"
jsonwebtoken = { version = "=11.1.0", features = ["rust_crypto"] }
uuid = { version = "=1.27.0", features = ["v4"] }
validator = "=0.21.0"
chrono = "=0.4.45"
serde = { version = "=1.0.229", features = ["derive"] }
serde_json = { version = "=1.0.151", features = ["raw_value"] }
axum = "=0.8.9"
tokio = { version = "=1.53.2", features = ["full"] }
figment = { version = "=0.10.19", features = ["toml", "env"] }
