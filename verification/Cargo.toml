[package]
name = "catalog"
version = "0.1.0"
edition = "2021"
publish = false

[dependencies]
sha2 = "0.10"
uuid = { version = "1", features = ["v4", "serde"] }
validator = { version = "*", features = ["derive"] }
actix-web = "4"
actix-multipart = "*"
sqlx = { version = "*", default-features = false, features = ["runtime-tokio", "postgres", "uuid", "chrono", "json", "macros", "migrate"] }
tokio = { version = "1", features = ["fs", "macros", "rt-multi-thread", "process", "time"] }
serde = { version = "1", features = ["derive"] }
serde_json = "1"
flate2 = "1"
tar = "*"
tempfile = "3"
tracing = "0.1"
tracing-subscriber = { version = "0.3", features = ["env-filter"] }
futures-util = "0.3"
async-trait = "*"
chrono = { version = "0.4", features = ["serde"] }
thiserror = "*"
