[package]
name = "mcli"
version = "0.1.0"
edition = "2021"
publish = false

[dependencies]
clap = "4"
time = { version = "0.3", features = ["formatting", "parsing", "local-offset"] }
