[package]
name = "ibis"
version = "0.1.0"
edition = "2021"
publish = false

[dependencies]
sha2 = "0.10"
hex = "0.4"
uuid = "1"
diffy = "0.4"
fmtm = "*"
url = "2"
chrono = "0.4"
serde = { version = "1", features = ["derive"] }
markdown-it = { version = "0.6", default-features = false }
