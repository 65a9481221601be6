[package]
name = "actixexp"
version = "0.1.0"
edition = "2021"
publish = false

[dependencies]
actix-cors = "=0.7.2"
actix-rt = "=2.15.0"
actix-service = "=2.0.3"
actix-session = { version = "=0.11.0", features = ["cookie-session"] }
actix-web = { version = "=4.15.0", default-features = false, features = ["macros", "cookies"] }
anyhow = "=1.0.104"
base64 = "=0.23.1"
clap = { version = "=4.6.7", features = ["derive"] }
deadpool-postgres = "=0.14.2"
futures-util = "=0.3.34"
hmac = "=0.13.0"
rand = "=0.10.3"
reqwest = { version = "=0.13.5", default-features = false, features = ["form", "json"] }
serde = { version = "=1.0.229", features = ["derive"] }
serde_json = "=1.0.151"
sha2 = "=0.11.0"
thiserror = "=2.0.21"
tokio = { version = "=1.53.2", features = ["fs", "io-util", "macros", "rt-multi-thread"] }
tokio-postgres = "=0.7.18"
toml = "=1.1.6"
