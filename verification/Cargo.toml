[package]
name = "scheduality"
version = "0.1.0"
edition = "2021"
publish = false

[dependencies]
chrono = "0.4"
uuid = "1"
poise = "0.6"
sqlx = { version = "0.8", default-features = false, features = ["postgres", "runtime-tokio", "chrono", "uuid"] }
tokio = { version = "1", features = ["macros", "rt-multi-thread"] }
actix-web = { version = "4", default-features = false, features = ["macros"] }
clap = "4"
env_logger = "0.11"
serde = { version = "1", features = ["derive"] }
