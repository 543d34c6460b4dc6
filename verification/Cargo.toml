[package]
name = "algo_trader"
version = "0.1.0"
edition = "2021"
publish = false

[dependencies]
csv = "1"
dfdx = "0.13"
dotenvy = "0.15"
rand = "0.8"
reqwest = { version = "0.12", default-features = false, features = ["json", "rustls-tls"] }
serde = { version = "1", features = ["derive"] }
serde_json = "1"
tokio = { version = "1", features = ["macros", "rt-multi-thread", "time"] }
