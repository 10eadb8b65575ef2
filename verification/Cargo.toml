[package]
name = "kt"
version = "0.1.0"
edition = "2021"
publish = false

[dependencies]
pkcs1 = { version = "=0.3.3", features = ["pem"] }
pkcs8 = { version = "=0.8.0", features = ["pem", "encryption"] }
sec1 = { version = "=0.2.1", features = ["pem"] }
spki = { version = "=0.5.4", features = ["pem"] }
der = { version = "=0.5.1", features = ["alloc", "oid", "pem"] }
zeroize = "=1.9.1"
clap = "=4.6.7"
log = "=0.4.34"
env_logger = "=0.10.2"
thiserror = "=1.0.69"
anyhow = "=1.0.104"
