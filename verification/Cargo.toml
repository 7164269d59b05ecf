[package]
name = "laundry_monitor"
version = "0.1.0"
edition = "2021"
publish = false

[dependencies]
heapless = "=0.8.0"
smoltcp = { version = "=0.12.0", default-features = false, features = ["medium-ethernet", "proto-ipv4", "socket-tcp", "socket-dhcpv4"] }
embedded-io = "=0.6.1"
embassy-net-driver = "=0.2.0"
esp-hal = { version = "=1.0.0", features = ["esp32", "unstable"] }
esp-println = { version = "0.16", features = ["esp32"] }
esp-radio = { version = "=0.17.0", features = ["esp32", "wifi"] }
esp-rtos = { version = "0.2", features = ["esp32"] }
esp-alloc = "0.9"
esp-bootloader-esp-idf = { version = "0.4", features = ["esp32"] }
