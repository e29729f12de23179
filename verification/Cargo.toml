[package]
name = "async_spin_sleep"
version = "0.1.0"
edition = "2021"
publish = false

[dependencies]
crossbeam = "0.8"
dary_heap = "0.3"
lazy_static = "1"
parking_lot = "0.12"
