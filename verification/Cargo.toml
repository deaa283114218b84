[package]
name = "ap_server"
version = "0.1.0"
edition = "2021"
publish = false

[dependencies]
defmt = "=1.0.1"
edge-dhcp = "=0.6.0"
edge-nal = "=0.5.0"
edge-nal-embassy = "=0.6.0"
embassy-executor = { version = "=0.9.1", features = ["defmt"] }
embassy-net = { version = "=0.7.1", features = ["defmt", "dhcpv4", "medium-ethernet", "tcp", "udp"] }
embassy-time = { version = "=0.5.0", features = ["defmt"] }
embedded-io-async = "=0.6.1"
esp-alloc = { version = "=0.9.0", features = ["defmt"] }
esp-backtrace = { version = "=0.18.1", features = ["defmt", "esp32", "panic-handler"] }
esp-bootloader-esp-idf = { version = "=0.4.0", features = ["defmt", "esp32"] }
esp-hal = { version = "=1.0.0", features = ["defmt", "esp32", "unstable"] }
esp-println = { version = "=0.16.1", features = ["defmt-espflash", "esp32"] }
esp-radio = { version = "=0.17.0", features = ["defmt", "esp-alloc", "esp32", "unstable", "wifi"] }
esp-rtos = { version = "=0.2.0", features = ["defmt", "embassy", "esp-alloc", "esp-radio", "esp32"] }
static_cell = "=2.1.1"
