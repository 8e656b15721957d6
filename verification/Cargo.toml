[package]
name = "door_controller"
version = "0.1.0"
edition = "2021"
publish = false

[dependencies]
defmt = "=1.2.0"
embassy-executor = "=0.10.0"
embassy-net = { version = "=0.9.1", features = ["tcp", "udp", "dhcpv4", "dns", "medium-ethernet"] }
embassy-sync = "=0.8.0"
embassy-time = { version = "=0.5.1", features = ["tick-hz-1_000_000"] }
static_cell = "=2.1.1"

[dev-dependencies]
critical-section = { version = "=1.2.0", features = ["std"] }
embassy-time = { version = "=0.5.1", features = ["mock-driver"] }
