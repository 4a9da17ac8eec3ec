[package]
name = "ticker_overlay"
version = "0.1.0"
edition = "2021"
publish = false

[dependencies]
chrono = "0.4"
druid = "0.8"
image = { version = "0.25", default-features = false, features = ["png"] }
tokio-test = "0.4"
yahoo_finance_api = "*"
