[package]
name = "todo"
version = "0.1.0"
edition = "2021"
publish = false

[dependencies]
async-trait = "0.1"
sea-orm = { version = "1", default-features = false, features = ["macros", "sqlx-sqlite", "runtime-tokio-rustls"] }
snafu = "0.8"
tokio = { version = "1", features = ["macros", "rt-multi-thread", "sync"] }
