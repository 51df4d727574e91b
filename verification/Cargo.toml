[package]
name = "adborc"
version = "0.1.0"
edition = "2021"
publish = false

[dependencies]
clap = { version = "4", features = ["derive"] }
clap_mangen = "0.2"
daemonize = "0.5"
