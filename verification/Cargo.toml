[package]
name = "postage"
version = "0.1.0"
edition = "2021"
publish = false

[dependencies]
crossbeam-queue = "0.3"
log = "0.4"
thiserror = "1"
futures-task = "0.3"
