[package]
name = "fortifier"
version = "0.1.0"
edition = "2021"
publish = false

[dependencies]
email_address = "=0.2.9"
url = "=2.5.8"
regex = "=1.13.1"
phonenumber = "=0.3.7"
indexmap = "=2.14.2"
serde = { version = "=1.0.229", features = ["derive"] }
