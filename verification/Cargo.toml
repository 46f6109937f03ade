[package]
name = "polymarket_orders"
version = "0.1.0"
edition = "2021"
publish = false

[dependencies]
rust_decimal = "1"
chrono = { version = "0.4", default-features = false, features = ["std", "clock"] }
rand = "*"
alloy = { version = "1", default-features = false, features = ["std", "contract", "providers"] }
