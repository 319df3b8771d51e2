[package]
name = "ponyview"
version = "0.1.0"
edition = "2021"
publish = false

[dependencies]
blake3 = "*"
clap = "*"
image = { version = "*", default-features = false, features = ["gif", "jpeg", "png"] }
