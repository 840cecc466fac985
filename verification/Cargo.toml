[package]
name = "sfwallpaper"
version = "0.1.0"
edition = "2021"
publish = false

[dependencies]
base64 = "*"
regex = "*"
url = "*"
rand = "*"
getopts = "*"
serde = "*"
serde_derive = "*"
reqwest = { version = "*", default-features = false, features = ["blocking", "json"] }
