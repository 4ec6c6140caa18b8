[package]
name = "repo_status"
version = "0.1.0"
edition = "2021"
publish = false

[dependencies]
clap = { version = "2", default-features = false }
colored = "1.6"
futures = { version = "0.3", features = ["thread-pool"] }
git2 = { version = "*", default-features = false }
itertools = "0.7"
serde-xml-rs = "0.4"
xml-rs = "0.8"
