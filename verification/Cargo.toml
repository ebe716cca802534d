[package]
name = "storage_fs"
version = "0.1.0"
edition = "2021"
publish = false

[dependencies]
opendal = { version = "*", default-features = false, features = ["services-fs", "services-s3"] }
async-trait = "*"
bytes = "*"
thiserror = "*"

[dev-dependencies]
tokio = { version = "*", features = ["rt"] }
tempfile = "*"
