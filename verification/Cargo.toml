[package]
name = "bookshelf"
version = "0.1.0"
edition = "2021"
publish = false

[dependencies]
chrono = "=0.4.45"
fake = "=5.1.0"
sqlx = { version = "=0.9.0", default-features = false, features = ["mysql", "runtime-tokio", "chrono", "migrate"] }
tokio = { version = "=1.54.1", features = ["rt-multi-thread", "macros"] }
anyhow = "=1.0.104"
dotenvy = "=0.15.7"
