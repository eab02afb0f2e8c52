[package]
name = "mailfetch"
version = "0.1.0"
edition = "2021"
publish = false

[dependencies]
imap = "2"
mailparse = "*"
native-tls = "0.2"
