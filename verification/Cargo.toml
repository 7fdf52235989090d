[package]
name = "raccoon"
version = "0.1.0"
edition = "2021"
publish = false

[dependencies]
irc = "*"
serde_json = "*"
futures = "*"
