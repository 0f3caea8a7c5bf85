[package]
name = "polyproto"
version = "0.1.0"
edition = "2021"
publish = false

[dependencies]
der = { version = "0.7", features = ["alloc", "std", "oid"] }
spki = { version = "0.7", features = ["alloc", "std"] }
x509-cert = { version = "0.2", features = ["std"] }
url = "2"
