[package]
name = "modelpipe_ffi"
version = "0.1.0"
edition = "2021"
publish = false

[dependencies]
modelpipe = "=0.8.7"
sha2 = "0.10"
tokio = { version = "1", features = ["rt-multi-thread", "macros", "time", "sync"] }
tokio-util = "0.7"
uniffi = { version = "0.32", default-features = false, features = ["tokio"] }
