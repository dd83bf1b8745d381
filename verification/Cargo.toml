[package]
name = "url_shortener"
version = "0.1.0"
edition = "2021"
publish = false

[dependencies]
actix-web = { version = "4", default-features = false, features = ["macros", "compress-gzip"] }
anyhow = "1"
deadpool-postgres = "*"
serde = { version = "1", features = ["derive"] }
serde_json = "1"
time = "0.3"
tokio = { version = "1", features = ["macros", "rt-multi-thread"] }
tokio-postgres = "0.7"
tracing = "0.1"
tracing-actix-web = "*"
tracing-log = "0.2"
tracing-subscriber = { version = "0.3", features = ["env-filter", "time"] }
uuid = { version = "1", features = ["v4"] }
