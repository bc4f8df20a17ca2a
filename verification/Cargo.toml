[package]
name = "gex_strategy"
version = "0.1.0"
edition = "2021"
publish = false

[dependencies]
chrono = "0.4"
chrono-tz = "*"
nyse-holiday-cal = "*"
base64 = "*"
