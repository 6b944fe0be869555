[package]
name = "mapreduce_core"
version = "0.1.0"
edition = "2021"
publish = false

[dependencies]
crossbeam-channel = "*"
rlua = "*"
serde_json = "*"
uuid = "*"
