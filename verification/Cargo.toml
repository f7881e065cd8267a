[package]
name = "deploy_flow"
version = "0.1.0"
edition = "2021"
publish = false

[dependencies]
bytesize = "1"
tera = "1"
serde_json = "1"
serde = { version = "1", features = ["derive"] }
thiserror = "1"
tokio = { version = "1", features = ["full"] }
async-trait = "0.1"
futures-util = "0.3"
reqwest = { version = "0.11", default-features = false, features = ["stream"] }
russh = "0.45"
russh-sftp = "2.0"
flate2 = "1"
tar = "0.4"
