[package]
name = "zero2prod"
version = "0.1.0"
edition = "2021"
publish = false

[dependencies]
uuid = "=1.29.0"
validator = "=0.21.0"
anyhow = "=1.0.104"
thiserror = "=2.0.21"
tracing = "=0.1.44"
serde = { version = "=1.0.229", features = ["derive"] }
tokio = { version = "=1.54.1", features = ["macros", "rt-multi-thread"] }
actix-web = { version = "=4.18.1", default-features = false, features = ["macros"] }
actix-web-flash-messages = { version = "=0.5.1", features = ["cookies"] }
sqlx = { version = "=0.9.0", default-features = false, features = ["postgres", "uuid", "runtime-tokio"] }
reqwest = { version = "=0.13.5", default-features = false, features = ["json"] }
