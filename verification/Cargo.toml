[package]
name = "leptos-browser-test"
version = "0.3.0"
edition = "2021"
publish = false

[dependencies]
rootcause = "*"
thiserror = "*"
tokio = { version = "1", features = ["process", "io-std", "io-util", "macros", "rt-multi-thread", "time"] }
tokio-process-tools = "*"
tracing = "*"
unwrap-infallible = "*"
