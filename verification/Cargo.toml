[package]
name = "ytdl"
version = "0.1.0"
edition = "2021"
publish = false

[dependencies]
regex = "1"
clap = "2"
anyhow = "1"
colored = "2"
