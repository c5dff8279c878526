[package]
name = "cdw"
version = "1.0.0"
edition = "2021"
publish = false

[dependencies]
clap = "4"
