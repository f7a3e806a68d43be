[package]
name = "tls_echo"
version = "0.1.0"
edition = "2021"
publish = false

[dependencies]
openssl = "0.10"
actix-web = "4"
actix-cors = "0.7"
env_logger = "0.11"
anyhow = "1"
