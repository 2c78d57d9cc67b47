[package]
name = "snipboard"
version = "0.1.0"
edition = "2021"
publish = false

[dependencies]
async-ctrlc = "1"
async-std = { version = "1", features = ["unstable"] }
get_if_addrs = "0.5"
hostname = "0.3"
qrcode = { version = "0.12", default-features = false, features = ["svg"] }
serde = { version = "1", features = ["derive"] }
structopt = "0.3"
tempfile = "3"
tide = { version = "0.16", default-features = false, features = ["h1-server"] }
