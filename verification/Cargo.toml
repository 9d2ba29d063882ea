[package]
name = "anime_cli"
version = "0.1.0"
edition = "2021"
publish = false

[dependencies]
serde_json = "=1.0.151"
reqwest = { version = "=0.13.5", default-features = false, features = ["blocking", "query"] }
subprocess = "=1.2.1"
termcolor = "=1.4.1"
