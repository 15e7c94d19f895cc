[package]
name = "farmstock"
version = "0.1.0"
edition = "2021"
publish = false

[dependencies]
uuid = { version = "=1.29.0", features = ["v4"] }
chrono = { version = "=0.4.45", default-features = false, features = ["clock", "std", "serde"] }
rust_decimal = { version = "=1.43.0" }
axum = { version = "=0.8.9" }
sea-orm = { version = "=1.1.20", default-features = false, features = ["macros", "with-chrono", "with-rust_decimal", "with-uuid", "sqlx-postgres", "runtime-tokio-rustls"] }
serde = { version = "=1.0.229", features = ["derive"] }
tokio = { version = "=1.54.1", features = ["macros", "rt-multi-thread", "net"] }
