[package]
name = "happy_wakey_lambdas"
version = "0.1.0"
edition = "2021"
publish = false

[dependencies]
serde = { version = "=1.0.229", features = ["derive"] }
serde_json = "=1.0.154"
thiserror = "=2.0.21"
time = { version = "=0.3.55", features = ["parsing", "formatting"] }
