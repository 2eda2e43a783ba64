[package]
name = "perth"
version = "0.1.0"
edition = "2021"
publish = false

[dependencies]
tokio = { version = "1", features = ["sync", "process", "io-util", "time", "rt", "macros"] }
serde = { version = "1", features = ["derive"] }
serde_json = "1"
async-trait = "0.1"
log = "0.4"
nix = { version = "*", features = ["signal"] }
chrono = { version = "0.4", features = ["serde"] }
uuid = { version = "1", features = ["v4", "serde"] }
sqlx = { version = "*", default-features = false, features = ["runtime-tokio", "postgres", "uuid", "chrono", "json", "migrate", "derive"] }
