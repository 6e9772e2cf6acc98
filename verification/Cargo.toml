[package]
name = "showsk_rs"
version = "0.1.0"
edition = "2021"
publish = false

[dependencies]
actix-files = "0.6"
actix-multipart = "0.4"
actix-session = { version = "0.7", features = ["redis-rs-session"] }
actix-web = "4"
actix-web-flash-messages = { version = "0.4", features = ["cookies"] }
anyhow = "1"
argon2 = { version = "0.4", features = ["std"] }
chrono = { version = "0.4", default-features = false, features = ["clock"] }
config = { version = "0.11", default-features = false, features = ["yaml"] }
derive_more = "0.99"
futures = "0.3"
sanitize-filename = "0.4"
secrecy = { version = "0.8", features = ["serde"] }
serde = { version = "1", features = ["derive"] }
serde-aux = "3"
serde_json = "1"
sqlx = { version = "0.7", default-features = false, features = ["runtime-tokio", "macros", "postgres", "uuid", "chrono"] }
tera = { version = "1", default-features = false }
thiserror = "1"
tokio = { version = "1", features = ["macros", "rt-multi-thread"] }
tracing = "0.1"
tracing-actix-web = "0.7"
unicode-segmentation = "1"
uuid = { version = "1", features = ["v4"] }
validator = "0.16"
