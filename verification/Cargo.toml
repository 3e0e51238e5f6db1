[package]
name = "nitpx"
version = "0.1.0"
edition = "2021"
publish = false

[dependencies]
image = { version = "=0.24.9", default-features = false, features = ["png"] }
md5 = "=0.7.0"
url = "=2.5.8"
clap = "=2.34.0"
colored = "=2.2.0"
directories = "=6.0.0"
serde = { version = "=1.0.229", features = ["derive"] }
serde_json = "=1.0.154"
serde-xml-rs = "=0.8.2"
ureq = { version = "=2.12.1", default-features = false }
headless_chrome = "=0.9.0"
