[package]
name = "esp8266_wifi_serial"
version = "0.1.0"
edition = "2021"
publish = false

[dependencies]
heapless = "0.7"
embedded-hal = "0.2"
nb = "1"
no-std-net = "*"
serde = { version = "1", features = ["derive"] }
simple-clock = "*"
