[package]
name = "ncm_flac"
version = "0.1.0"
edition = "2021"
publish = false

[dependencies]
aes = "0.8"
base64 = "0.22"
json = "0.12"
clap = { version = "4", features = ["derive"] }
id3 = "1"
metaflac = "0.2"
tempfile = "3"
