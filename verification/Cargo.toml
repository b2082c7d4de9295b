[package]
name = "guild_court"
version = "0.1.0"
edition = "2021"
publish = false

[dependencies]
color-eyre = "0.6"
mongodb = "2"
poise = "0.4"
tracing = "0.1"
