[package]
name = "abunch"
version = "0.1.0"
edition = "2021"
publish = false

[dependencies]
nanoid = "0.4"
pwhash = "1"
time = { version = "0.3", features = ["serde", "macros", "formatting", "parsing"] }
serde = { version = "1", features = ["derive"] }
serde_json = "1"
thiserror = "1"
rocket = { version = "=0.5.0-rc.3", features = ["json", "secrets"] }
rocket_db_pools = { version = "=0.1.0-rc.3", features = ["sqlx_postgres"] }
sqlx = { version = "0.6", default-features = false, features = ["runtime-tokio-rustls", "postgres", "time", "macros"] }
