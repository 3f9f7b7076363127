[package]
name = "rebase_witness"
version = "0.1.0"
edition = "2021"
publish = false

[dependencies]
serde = { version = "1", features = ["derive"] }
serde_json = "1"
ssi = "0.4"
thiserror = "1"
url = "2"
reqwest = { version = "0.11", default-features = false, features = ["json"] }
