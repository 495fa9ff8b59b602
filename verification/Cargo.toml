[package]
name = "pcoplayer"
version = "0.1.0"
edition = "2021"
publish = false

[dependencies]
url = "*"
m3u = "*"
encoding_rs = "*"
percent-encoding = "*"
reqwest = { version = "*", default-features = false, features = ["blocking"] }
