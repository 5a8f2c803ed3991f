[package]
name = "zero2prod"
version = "0.1.0"
edition = "2021"
publish = false

[dependencies]
unicode-segmentation = "=1.13.3"
validator = "=0.16.1"
rand = "=0.8.8"
actix-web = { version = "=4.18.1", default-features = false, features = ["macros"] }
config = { version = "=0.13.4", default-features = false, features = ["yaml"] }
reqwest = { version = "=0.11.27", default-features = false, features = ["json"] }
secrecy = { version = "=0.8.0", features = ["serde"] }
serde = { version = "1", features = ["derive"] }
sqlx = { version = "=0.8.6", default-features = false, features = ["runtime-tokio", "postgres", "uuid", "chrono"] }
tokio = { version = "1", features = ["macros", "rt-multi-thread"] }
tracing = "0.1"
tracing-actix-web = "=0.7.25"
tracing-subscriber = { version = "0.3", features = ["env-filter"] }
uuid = { version = "1", features = ["v4"] }

[dev-dependencies]
linkify = "0.10"
serde_urlencoded = "0.7"
