[package]
name = "o_ads_backend"
version = "0.1.0"
edition = "2021"
publish = false

[dependencies]
uuid = { version = "*", features = ["v4"] }
chrono = "*"
serde = { version = "*", features = ["derive"] }
serde_json = "*"
sqlx = { version = "*", default-features = false, features = ["runtime-tokio", "postgres", "chrono", "uuid", "ipnetwork", "json"] }
axum = "*"
axum-extra = { version = "*", features = ["typed-header"] }
http = "*"
tokio = { version = "*", features = ["macros", "rt-multi-thread", "net"] }
tower-http = { version = "*", features = ["trace"] }
tracing = "*"
tracing-subscriber = "*"
dotenvy = "*"
