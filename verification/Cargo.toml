[package]
name = "speedtest_statuspage"
version = "0.1.0"
edition = "2021"
publish = false

[dependencies]
serde = { version = "*", features = ["derive"] }
serde_json = "*"
actix-web = "*"
tokio = { version = "*", features = ["macros", "rt-multi-thread", "process", "time"] }
async-trait = "*"
dotenvy = "*"
