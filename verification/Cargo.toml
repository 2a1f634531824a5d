[package]
name = "esp-wiffy"
version = "0.1.0"
edition = "2021"
publish = false

[dependencies]
heapless = "=0.8.0"
dht-sensor = "=0.2.1"
embedded-hal = { version = "=0.2.7", features = ["unproven"] }
embassy-executor = "=0.5.1"
embassy-net = { version = "=0.4.0", features = ["tcp", "dns", "dhcpv4", "proto-ipv4", "medium-ethernet"] }
embassy-sync = "=0.5.0"
embassy-time = "=0.3.2"
embedded-svc = "=0.26.4"
rust-mqtt = "=0.3.1"
static_cell = "=2.1.1"
