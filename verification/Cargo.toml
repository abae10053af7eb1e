[package]
name = "simplettsreader"
version = "0.1.0"
edition = "2021"
publish = false

[dependencies]
arboard = { version = "3", default-features = false }
clipboard-master = "3.1.3"
confy = "0.6.1"
parking_lot = "0.12"
pico-args = "0.5"
sapi-lite = "0.1.1"
serde = { version = "1", features = ["derive"] }
single-instance = "0.3.3"
tray-icon = { version = "*", default-features = false }
