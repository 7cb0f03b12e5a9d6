[package]
name = "aws_mfa"
version = "0.1.0"
edition = "2021"
publish = false

[dependencies]
anyhow = "1"
aws-config = "1"
aws-sdk-sts = "1"
aws-smithy-types = "1"
clap = { version = "4", features = ["derive", "env"] }
dirs = "*"
env_logger = "*"
log = "0.4"
tokio = { version = "1", features = ["macros", "rt-multi-thread", "fs"] }
