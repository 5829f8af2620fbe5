[package]
name = "lbxd"
version = "0.1.0"
edition = "2021"
publish = false

[dependencies]
html-escape = "=0.2.15"
poise = "=0.5.7"
rand = "=0.8.8"
regex = "=1.13.1"
reqwest = { version = "=0.11.27", features = ["blocking", "json"] }
scraper = { version = "=0.16.0", default-features = false, features = ["deterministic"] }
serenity = "=0.11.7"
tokio = { version = "=1.54.1", features = ["macros", "rt-multi-thread", "time"] }
