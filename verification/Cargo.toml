[package]
name = "safety_edu"
version = "0.1.0"
edition = "2021"
publish = false

[dependencies]
rand = "=0.8.8"
json = "=0.12.4"
chrono = "=0.4.45"
docopt = "=1.1.1"
reqwest = { version = "=0.13.5", default-features = false, features = ["blocking", "query"] }
