[package]
name = "md2bbcode"
version = "0.1.0"
edition = "2021"
publish = false

[dependencies]
anyhow = "1"
clap = { version = "3.2", features = ["derive"] }
html-escape = "0.2"
pulldown-cmark = { version = "0.9", default-features = false }
