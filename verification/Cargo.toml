[package]
name = "progressor"
version = "0.1.0"
edition = "2021"
publish = false

[dependencies]
async-broadcast = "0.7"
futures-core = "0.3"
futures-util = "0.3"
pin-project-lite = "0.2"
