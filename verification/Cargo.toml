[package]
name = "aurelius"
version = "0.1.0"
edition = "2021"
publish = false

[dependencies]
pulldown-cmark = { version = "=0.9.6", default-features = false }
http = "=0.2.12"
async-tungstenite = { version = "=0.17.2", features = ["tokio-runtime"] }
mime_guess = "=2.0.4"
tokio = { version = "=1.53.2", features = ["full"] }
hyper = { version = "=0.14.32", features = ["full"] }
futures-util = "=0.3.34"
hyper-staticfile = "=0.9.6"
url = "=2.5.8"
