[package]
name = "tide-handlebars"
version = "0.9.0"
edition = "2021"
publish = false

[dependencies]
handlebars = "*"
serde = "1"
serde_json = "1"
tide = { version = "0.16", default-features = false }
