[package]
name = "mailmigrate"
version = "0.1.0"
edition = "2021"
publish = false

[dependencies]
csv = "1"
num_cpus = "1"
clap = { version = "4", features = ["derive"] }
tokio = { version = "1", features = ["rt-multi-thread", "macros", "sync"] }
