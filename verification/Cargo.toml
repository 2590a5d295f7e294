[package]
name = "cloud_startup"
version = "0.1.0"
edition = "2021"
publish = false

[dependencies]
actix = "=0.13.5"
actix-cors = "0.6"
actix-identity = "=0.5.2"
actix-session = { version = "=0.7.2", features = ["redis-rs-session"] }
actix-web = { version = "=4.18.1", default-features = false, features = ["cookies", "secure-cookies", "openssl"] }
anyhow = "=1.0.104"
openssl = "=0.10.81"
rcgen = "=0.12.1"
reqwest = { version = "=0.11.27", default-features = false }
secrecy = "=0.8.0"
sqlx = { version = "=0.7.4", default-features = false, features = ["runtime-tokio", "postgres", "migrate"] }
tokio = { version = "=1.54.1", features = ["sync"] }
tracing-actix-web = "=0.7.25"
