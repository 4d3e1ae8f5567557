[package]
name = "trading_sim"
version = "0.1.0"
edition = "2021"
publish = false

[dependencies]
rand = "0.8"
serde = { version = "1", features = ["derive"] }
serde_json = "1"
serde_yaml = "0.9"
actix-web = "4"
actix-cors = "0.7"
regex = "1"
alphanumeric-sort = "1"
