[package]
name = "findip_lib"
version = "1.0.0"
edition = "2021"
publish = false

[dependencies]
aws-arn = "0.2"
chrono = "0.4"
clap = "2"
dotenv = "0.15"
fern = "0.6"
http = "0.2"
http-serde = "1"
indexmap = "1"
log = { version = "0.4", features = ["serde"] }
reqwest = { version = "0.11", features = ["blocking"] }
rusoto_core = "0.48"
rusoto_credential = "0.48"
rusoto_s3 = "0.48"
rusoto_sts = "0.48"
serde = { version = "1", features = ["derive"] }
serde_json = "1"
serde_yaml = "0.8"
tokio = { version = "1", features = ["rt-multi-thread"] }
validator = { version = "0.16", features = ["derive"] }
