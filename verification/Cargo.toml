[package]
name = "doo"
version = "0.1.0"
edition = "2021"
publish = false

[dependencies]
rusqlite = "=0.32.1"
gtk4 = { version = "=0.9.7", features = ["v4_12"] }
libadwaita = { version = "=0.7.2", features = ["v1_5"] }
ksni = { version = "=0.3.7", features = ["blocking"] }
async-channel = "=2.5.0"
