[package]
name = "pomodoro"
version = "0.1.0"
edition = "2021"
publish = false

[dependencies]
dioxus = { version = "=0.7.10", default-features = false, features = ["macro", "html", "hooks", "signals", "launch", "web"] }
futures-timer = { version = "=3.0.4", features = ["wasm-bindgen"] }
