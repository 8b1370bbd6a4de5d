[package]
name = "tikv_node"
version = "0.1.0"
edition = "2021"
publish = false

[dependencies]
neon = "*"
tikv-client = "*"
tokio = { version = "1", features = ["rt-multi-thread", "sync"] }
once_cell = "1"
lazy_static = "1"
