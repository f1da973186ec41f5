[package]
name = "cndev"
version = "0.1.0"
edition = "2021"
publish = false

[dependencies]
actix-web = "4"
actix-files = "0.6"
actix-multipart = "0.7"
alibaba-cloud-sdk-rust = "*"
async-trait = "0.1"
chrono = "0.4"
dotenvy = "0.15"
futures-util = "0.3"
jsonwebtoken = { version = "9", default-features = false }
listenfd = "1"
rand = "0.8"
redis = { version = "0.25", default-features = false }
sea-orm = { version = "1", default-features = false, features = ["sqlx-postgres", "runtime-tokio-rustls", "macros", "with-chrono", "with-json"] }
sea-orm-migration = { version = "1", default-features = false }
serde = { version = "1", features = ["derive"] }
serde_json = "1"
tera = { version = "1", default-features = false }
tracing-subscriber = "0.3"
