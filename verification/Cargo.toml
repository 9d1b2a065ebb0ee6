[package]
name = "wifi_ap"
version = "0.1.0"
edition = "2021"
publish = false

[dependencies]
anyhow = { version = "=1.0.104", default-features = false }
embassy-executor = { version = "=0.7.0" }
embassy-net = { version = "=0.8.0", features = ["proto-ipv4", "medium-ethernet", "udp", "tcp"] }
embassy-time = { version = "=0.5.1", features = ["std"] }
esp-hal-dhcp-server = { version = "=0.2.8" }
