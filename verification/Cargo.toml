[package]
name = "n0_snafu"
version = "0.1.0"
edition = "2021"
publish = false

[dependencies]
anyhow = "=1.0.104"
btparse = "=0.2.0"
color-backtrace = { version = "=0.7.4", features = ["use-btparse-crate"] }
snafu = { version = "=0.9.2", features = ["backtraces-impl-backtrace-crate"] }
tracing-error = "=0.2.1"
