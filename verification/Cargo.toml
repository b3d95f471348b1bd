[package]
name = "irc_services"
version = "0.1.0"
edition = "2021"
publish = false

[dependencies]
futures-util = { version = "=0.3.34", default-features = false }
irc = { version = "=1.1.0", default-features = false, features = ["json_config"] }
openssl = "=0.10.81"
rand = "=0.8.8"
rustc-serialize = "=0.3.25"
tokio = { version = "=1.54.1", features = ["rt"] }
