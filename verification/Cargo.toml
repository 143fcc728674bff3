[package]
name = "get_newsblur"
version = "0.1.0"
edition = "2021"
publish = false

[dependencies]
url = "*"
serde_json = "*"
hyper = "0.10"
hyper-native-tls = "0.3"
mime = "0.2"
clap = "2"
rpassword = "*"
