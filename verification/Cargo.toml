[package]
name = "xhci_driver"
version = "0.1.0"
edition = "2021"
publish = false

[dependencies]
split_slice = "*"
volatile = { version = "0.6", features = ["derive"] }
log = "0.4"

[dev-dependencies]
bitfield = "*"
