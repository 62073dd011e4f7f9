[package]
name = "fairsquares"
version = "0.1.0"
edition = "2021"
publish = false

[dependencies]
frame-support = { version = "*", default-features = false }
frame-system = { version = "*", default-features = false }
pallet-democracy = { version = "*", default-features = false }
pallet-identity = { version = "*", default-features = false }
sp-runtime = { version = "*", default-features = false }
