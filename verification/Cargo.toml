[package]
name = "ps-mmap"
version = "0.1.0"
edition = "2021"
publish = false

[dependencies]
memmap2 = "0.9"
parking_lot = { version = "0.12", features = ["arc_lock"] }
thiserror = "2"
