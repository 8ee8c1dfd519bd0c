[package]
name = "json_nav"
version = "0.1.0"
edition = "2021"
publish = false

[dependencies]
serde_json = { version = "1", features = ["preserve_order"] }
structopt = "0.3"
termion = "*"
