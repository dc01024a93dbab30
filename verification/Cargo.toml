[package]
name = "web_hook"
version = "0.1.0"
edition = "2021"
publish = false

[dependencies]
actix-web = { version = "4", default-features = false, features = ["macros"] }
backtrace = "0.3"
base64 = "0.13"
chrono = { version = "0.4", default-features = false, features = ["clock", "std"] }
clap = { version = "3", features = ["derive"] }
env_logger = "0.9"
futures-util = "0.3"
log = "0.4"
regex = "1"
serde = { version = "1", features = ["derive"] }
sha2 = "0.10"
