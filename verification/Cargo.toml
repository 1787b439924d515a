[package]
name = "mqstore"
version = "0.1.0"
edition = "2021"
publish = false

[dependencies]
memmap2 = "*"
tokio = { version = "*", features = ["fs", "rt", "rt-multi-thread", "sync", "time", "io-util", "macros"] }
async-trait = "*"
futures = "*"
value-log = "*"
