[package]
name = "embedded_services"
version = "0.1.0"
edition = "2021"
publish = false

[dependencies]
heapless = "=0.8.0"
embassy-sync = "*"
embassy-time = "*"
embassy-futures = "*"
serde = { version = "1", default-features = false, features = ["derive"] }
num_enum = { version = "*", default-features = false }
bitfield = "*"
bitvec = { version = "1", default-features = false }
generic-array = "*"
typenum = "*"
embedded-batteries-async = "*"
paste = "*"
portable-atomic = "*"
