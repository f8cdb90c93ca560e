[package]
name = "cfn_picker"
version = "0.1.0"
edition = "2021"
publish = false

[dependencies]
anyhow = "1"
async-trait = "0.1"
aws-config = { version = "1", default-features = false, features = ["behavior-version-latest", "rt-tokio", "default-https-client"] }
aws-sdk-cloudformation = { version = "1", default-features = false, features = ["behavior-version-latest", "rt-tokio", "default-https-client"] }
skim = { version = "5", default-features = false }
tokio = { version = "1", features = ["macros", "rt-multi-thread"] }
