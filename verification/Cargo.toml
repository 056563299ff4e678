[package]
name = "blocktop"
version = "0.1.0"
edition = "2021"
publish = false

[dependencies]
alloy = { version = "0.8", default-features = false, features = ["std", "consensus", "eips", "rpc-types"] }
clap = { version = "4", features = ["derive"] }
eyre = "0.6"
futures = "0.3"
hyper = { version = "1", features = ["http1", "server"] }
hyper-util = { version = "0.1", features = ["tokio"] }
lazy_static = "1"
log = "0.4"
prometheus = { version = "0.13", default-features = false }
r2d2 = "0.8"
r2d2_sqlite = "0.25"
serde = { version = "1", features = ["derive"] }
serde_json = "1"
tokio = { version = "1", features = ["rt-multi-thread", "net", "macros"] }
url = "2"
