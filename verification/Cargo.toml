[package]
name = "dirty"
version = "0.1.0"
edition = "2021"
publish = false

[dependencies]
url = "=2.5.8"
httparse = "=1.10.1"
glob = "=0.3.4"
rustls = { version = "=0.23.46", default-features = false, features = ["ring", "std"] }
webpki-roots = "=0.26.11"
glow = "=0.13.1"
