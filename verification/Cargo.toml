[package]
name = "bof_kit"
version = "0.1.0"
edition = "2021"
publish = false

[dependencies]
goblin = "0.7"
itertools = "0.10"
colored = "2"
clap = { version = "4", features = ["derive"] }
