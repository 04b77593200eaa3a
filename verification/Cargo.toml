[package]
name = "deepdrive"
version = "0.1.0"
edition = "2021"
publish = false

[dependencies]
uuid = { version = "=1.27.0", features = ["v4"] }
tokio = { version = "*", features = ["full"] }
sqlx = { version = "*", default-features = false, features = ["runtime-tokio", "sqlite"] }
reqwest = "=0.12.28"
id3 = "*"
thiserror = "*"
async-trait = "*"
log = "*"
pretty_env_logger = "*"
