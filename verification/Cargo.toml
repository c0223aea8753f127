[package]
name = "reversi"
version = "0.1.0"
edition = "2021"
publish = false

[dependencies]
rocket = { version = "*", features = ["json"] }
mysql_async = "*"
async-trait = "*"
uuid = { version = "*", features = ["v4"] }
rand = "*"
dotenv = "*"
env_logger = "*"
thiserror = "*"
serde = { version = "*", features = ["derive"] }
