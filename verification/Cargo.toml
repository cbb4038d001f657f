[package]
name = "casbin_gate"
version = "0.1.0"
edition = "2021"
publish = false

[dependencies]
casbin = { version = "*", default-features = false, features = ["runtime-tokio", "incremental", "cached"] }
tokio = { version = "*", default-features = false, features = ["sync"] }
actix-web = "*"
actix-service = "*"
futures = "*"
