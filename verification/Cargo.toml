[package]
name = "gssproxy"
version = "0.1.0"
edition = "2021"
publish = false

[dependencies]
rust-ini = "*"
libc = "*"
libgssapi-sys = "*"
tokio = { version = "*", features = ["net", "io-util", "rt-multi-thread", "macros", "signal"] }
tracing = "*"
tracing-subscriber = { version = "*", features = ["env-filter"] }
