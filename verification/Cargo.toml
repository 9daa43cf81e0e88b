[package]
name = "debian_s3"
version = "0.1.0"
edition = "2021"
publish = false

[dependencies]
url = "2"
aws-config = { version = "1", default-features = false, features = ["rt-tokio"] }
aws-sdk-s3 = { version = "1", default-features = false, features = ["rt-tokio"] }
tokio = { version = "1", features = ["io-util"] }
tokio-util = { version = "0.7", features = ["compat"] }
futures = "0.3"
md-5 = "0.10"
sha1 = "0.10"
sha2 = "0.10"
