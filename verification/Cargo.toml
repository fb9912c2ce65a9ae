[package]
name = "post_service"
version = "0.1.0"
edition = "2021"
publish = false

[dependencies]
dotenvy = "0.15"
sea-orm = { version = "0.12", default-features = false, features = ["macros", "sqlx-sqlite", "runtime-tokio-rustls"] }
sea-orm-migration = { version = "0.12", default-features = false, features = ["sqlx-sqlite", "runtime-tokio-rustls"] }
serde = { version = "1", features = ["derive"] }
tokio = { version = "1", features = ["macros", "rt-multi-thread"] }
tracing-subscriber = "0.3"
