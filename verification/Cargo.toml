[package]
name = "wobj"
version = "0.1.0"
edition = "2021"
publish = false

[dependencies]
byteorder = "1"
clap = { version = "4", default-features = false, features = ["std", "help", "usage", "error-context"] }
