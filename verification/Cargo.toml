[package]
name = "captive_portal"
version = "0.1.0"
edition = "2021"
publish = false

[dependencies]
smoltcp = { version = "=0.11.0", default-features = false, features = ["std", "medium-ethernet", "proto-ipv4", "proto-dhcpv4", "socket-udp", "socket-tcp"] }
embassy-time = { version = "=0.3.2", features = ["std"] }
heapless = "=0.8.0"
embassy-net = { version = "=0.4.0", features = ["udp", "tcp", "proto-ipv4", "medium-ethernet"] }
embassy-executor = { version = "=0.5.1", features = ["arch-std", "executor-thread"] }
embassy-rp = "=0.1.0"
cyw43 = "=0.1.0"
cyw43-pio = "=0.1.0"
embassy-usb-logger = "0.1"
embedded-io-async = "=0.6.1"
static_cell = "=2.1.1"
picoserve = "0.7"
rand = { version = "=0.8.8", default-features = false }
log = "=0.4.34"
defmt = "=0.3.101"
defmt-rtt = "=0.4.2"
panic-probe = "=0.3.2"
