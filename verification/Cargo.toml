[package]
name = "imagebound"
version = "0.1.0"
edition = "2021"
publish = false

[dependencies]
image = "0.24"
actix-web = "4"
actix-cors = "0.7"
actix-multipart = "0.6"
futures-util = "0.3"
