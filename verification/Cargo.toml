[package]
name = "anystream"
version = "0.1.0"
edition = "2021"
publish = false

[dependencies]
ppp = "2"
webpki = "0.21"
rustls = "0.19"
webpki-roots = "0.21"
net2 = "0.2"
libc = "0.2"
lazy_static = "1"
