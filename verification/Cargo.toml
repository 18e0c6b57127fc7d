[package]
name = "checkpoint_indexer"
version = "0.1.0"
edition = "2021"
publish = false

[dependencies]
bcs = "0.1"
futures = "0.3"
prometheus = "0.13"
tokio = { version = "1", features = ["macros", "rt", "rt-multi-thread", "sync", "time"] }
tracing = "0.1"
