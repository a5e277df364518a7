[package]
name = "sqslisten"
version = "0.1.0"
edition = "2021"
publish = false

[dependencies]
clokwerk = "0.3"
rusoto_core = "0.42"
rusoto_sqs = "0.42"
