[package]
name = "tray_narrator"
version = "0.1.0"
edition = "2021"
publish = false

[dependencies]
arboard = { version = "=3.6.1", default-features = false }
rodio = { version = "=0.19.0", default-features = false, features = ["wav"] }
