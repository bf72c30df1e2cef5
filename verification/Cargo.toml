[package]
name = "config_store"
version = "0.1.0"
edition = "2021"
publish = false

[dependencies]
anyhow = "1"
async-trait = "0.1"
aws-config = { version = "=1.12.0", features = ["behavior-version-latest"] }
aws-sdk-codepipeline = "=1.126.0"
aws-sdk-dynamodb = "=1.131.0"
aws-sdk-secretsmanager = "=1.120.0"
aws-sdk-ssm = "=1.128.0"
aws-sdk-sts = "=1.119.0"
aws-smithy-runtime = "=1.16.0"
aws-types = "=1.6.0"
reqwest = { version = "=0.12.28", default-features = false, features = ["json", "rustls-tls"] }
serde = { version = "=1.0.229", features = ["derive"] }
serde_dynamo = { version = "=4.3.0", features = ["aws-sdk-dynamodb+1"] }
thiserror = "=2.0.21"
tokio = { version = "=1.54.1", features = ["rt-multi-thread"] }
tracing = "0.1"
