[package]
name = "nocturne_core"
version = "0.1.0"
edition = "2021"
publish = false

[dependencies]
chrono = "0.4"
uuid = { version = "1", features = ["v4"] }
serde = { version = "1", features = ["derive"] }
thiserror = "*"
tokio = { version = "1", features = ["sync", "rt", "macros"] }
sqlx = { version = "*", default-features = false, features = ["sqlite", "runtime-tokio", "macros", "migrate"] }
log = "0.4"
