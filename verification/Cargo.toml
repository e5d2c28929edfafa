[package]
name = "tankovault_console"
version = "0.1.0"
edition = "2021"
publish = false

[dependencies]
serde_json = "=1.0.154"
uuid = "=1.29.0"
dioxus = { version = "0.7", default-features = false, features = ["macro", "html", "signals", "hooks"] }
