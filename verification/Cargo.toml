[package]
name = "op_receipt"
version = "0.1.0"
edition = "2021"
publish = false

[dependencies]
revm = { version = "14", default-features = false, features = ["std", "optimism"] }
