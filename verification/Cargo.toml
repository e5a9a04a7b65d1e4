[package]
name = "hawkbit"
version = "0.1.0"
edition = "2021"
publish = false

[dependencies]
url = "*"
sha2 = "*"
sha1 = "*"
md-5 = "*"
serde = { version = "*", features = ["derive"] }
serde_json = "*"
thiserror = "*"
reqwest = { version = "*", default-features = false, features = ["json"] }
