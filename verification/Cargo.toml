[package]
name = "mailwatch"
version = "0.1.0"
edition = "2021"
publish = false

[dependencies]
anyhow = "=1.0.104"
flume = "=0.11.1"
imap = "=2.4.1"
imap-proto = "=0.10.2"
keyring = "=2.3.3"
log = "=0.4.34"
native-tls = "=0.2.18"
simple_logger = "=4.3.3"
sqlx = { version = "=0.7.4", default-features = false, features = ["runtime-tokio", "sqlite"] }
tokio = { version = "=1.53.2", features = ["rt-multi-thread", "macros"] }
