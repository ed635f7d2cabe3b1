[package]
name = "aws_lite"
version = "0.1.0"
edition = "2021"
publish = false

[dependencies]
aws-credential-types = "1"
aws-sigv4 = "1"
aws-smithy-runtime-api = "1"
chrono = { version = "0.4", features = ["serde"] }
form_urlencoded = "1"
once_cell = "1"
serde = { version = "1", features = ["derive"] }
serde_json = "1"
serde_with = "3"
serde-xml-rs = "0.6"
ureq = { version = "2", default-features = false }
