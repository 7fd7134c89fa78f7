[package]
name = "pong"
version = "0.1.0"
edition = "2021"
publish = false

[dependencies]
arrayvec = "=0.4.12"
embedded-graphics = "=0.4.9"
embedded-hal = { version = "=0.2.7", features = ["unproven"] }
ssd1306 = "=0.2.6"
