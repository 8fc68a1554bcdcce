[package]
name = "who_dis"
version = "0.1.0"
edition = "2021"
publish = false

[dependencies]
rand = "=0.4.6"
hyper = "=0.10.16"
hyper-native-tls = "=0.3.0"
rustc-serialize = "=0.3.25"
twilio = "=0.1.3"
