[package]
name = "tgfolders"
version = "0.1.0"
edition = "2021"
publish = false

[dependencies]
regex = "=1.13.1"
clap = { version = "=4.6.7", features = ["derive"] }
eyre = "=0.6.14"
glass_pumpkin = "=2.0.0-rc0"
grammers-client = "=0.10.0"
grammers-session = { version = "=0.10.0", features = ["sqlite-storage"] }
grammers-tl-types = "=0.10.0"
log = "=0.4.34"
rpassword = "=7.5.4"
serde = { version = "=1.0.229", features = ["derive"] }
serde_json = "=1.0.151"
serde_with = "=3.24.0"
shellexpand = "=3.1.2"
simple_logger = "=5.2.0"
tokio = { version = "=1.53.2", features = ["rt"] }
