[package]
name = "miner_toolbar"
version = "0.1.0"
edition = "2021"
publish = false

[dependencies]
async-std = "1"
dioxus = { version = "0.5", default-features = false, features = ["macro", "html", "hooks", "signals"] }
ore-program = "=1.2.1"
