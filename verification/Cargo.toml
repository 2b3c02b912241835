[package]
name = "cf_update_backend"
version = "0.1.0"
edition = "2021"
publish = false

[dependencies]
actix-cors = "0.5"
actix-rt = "1"
actix-web = "3"
log = "0.4"
log4rs = "1"
serde = { version = "1", features = ["derive"] }
serde_json = "1"
ssh2 = "0.9"
