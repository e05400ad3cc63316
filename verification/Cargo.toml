[package]
name = "blaze_terminal"
version = "0.1.0"
edition = "2021"
publish = false

[dependencies]
dioxus = { version = "=0.6.3", default-features = false, features = ["macro", "html", "hooks", "signals", "launch", "document", "router"] }
tokio = { version = "=1.54.1", features = ["process", "io-util", "sync", "rt"] }
