[package]
name = "speare"
version = "0.1.0"
edition = "2021"
publish = false

[dependencies]
flume = "0.11"
tokio = { version = "1", features = ["rt", "rt-multi-thread", "time", "sync", "macros"] }
futures-core = "0.3"
futures = "0.3"
async-trait = "0.1"
syn = { version = "2", features = ["full"] }
quote = "1"
proc-macro2 = "1"
