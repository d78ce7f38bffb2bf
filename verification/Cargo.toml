[package]
name = "ec2"
version = "0.1.0"
edition = "2021"
publish = false

[dependencies]
aws-config = { version = "1", features = ["behavior-version-latest"] }
aws-smithy-async = { version = "1", features = ["rt-tokio"] }
clap = { version = "4", features = ["derive"] }
comfy-table = "=8.0.1"
serde_json = "=1.0.154"
tokio = { version = "1", features = ["macros", "rt-multi-thread"] }
