[package]
name = "sgrep"
version = "0.5.0"
edition = "2021"
publish = false

[dependencies]
regex = "1"
clap = "2"
openai-api-rs = "2"
