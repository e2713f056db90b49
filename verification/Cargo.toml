[package]
name = "near-syn"
version = "0.5.1"
edition = "2021"
publish = false

[dependencies]
syn = { version = "1", features = ["full"] }
quote = "1"
proc-macro2 = "1"
clap = { version = "3", features = ["derive"] }
chrono = "0.4"
