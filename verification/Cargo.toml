[package]
name = "ustc_get_grade"
version = "0.1.0"
edition = "2021"
publish = false

[dependencies]
serde_json = "=1.0.151"
serde = { version = "=1.0.229", features = ["derive"] }
reqwest = { version = "=0.13.5", default-features = false, features = ["cookies", "form", "query"] }
tokio = { version = "=1.53.2", features = ["rt-multi-thread", "macros"] }
futures = "=0.3.34"
itertools = "=0.15.0"
log = "=0.4.34"
env_logger = "=0.11.11"
anyhow = "=1.0.104"
clap = "=4.6.7"
toml = "=1.1.6"
lettre = "=0.9.6"
lettre_email = "=0.9.4"
prettytable-rs = "=0.10.0"
