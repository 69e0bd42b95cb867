[package]
name = "skybot"
version = "0.1.0"
edition = "2021"
publish = false

[dependencies]
bigdecimal = "0.4"
num-bigint = "0.4"
dotenv = "0.15"
futures-util = "0.3"
reqwest = { version = "0.12", default-features = false, features = ["json", "rustls-tls"] }
serde = { version = "1", features = ["derive"] }
sqlx = { version = "0.8", default-features = false, features = ["postgres", "runtime-tokio", "bigdecimal"] }
tokio = { version = "1", features = ["macros", "rt-multi-thread"] }
zbus = { version = "5", default-features = false, features = ["tokio"] }
