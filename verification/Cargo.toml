[package]
name = "northstar_master_server"
version = "0.1.0"
edition = "2021"
publish = false

[dependencies]
rand = "0.8"
semver = "1"
serde = { version = "1", features = ["derive"] }
serde_json = "1"
tokio = { version = "1", features = ["macros", "rt-multi-thread", "sync"] }
warp = "0.3"
reqwest = { version = "0.11", default-features = false, features = ["json"] }
futures-util = "0.3"
bytes = "1"

[dev-dependencies]
hex = "0.4"
