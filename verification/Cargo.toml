[package]
name = "pallet_ocw"
version = "0.1.0"
edition = "2021"
publish = false

[dependencies]
frame-support = "*"
frame-system = "*"
log = "0.4"
parity-scale-codec = { version = "3", features = ["derive"] }
scale-info = { version = "2", features = ["derive"] }
serde = { version = "1", features = ["derive"] }
serde_json = "1"
sp-arithmetic = "*"
sp-core = "*"
sp-io = "*"
sp-runtime = "*"
sp-std = "*"
