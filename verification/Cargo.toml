[package]
name = "ssm_utils"
version = "0.1.0"
edition = "2021"
publish = false

[dependencies]
aws-config = { version = "=1.12.0", default-features = false }
aws-sdk-ssm = { version = "=1.128.0", default-features = false }
base64 = "=0.23.1"
mini-moka = "=0.10.3"
urlencoding = "*"
