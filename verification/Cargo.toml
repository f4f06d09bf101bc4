[package]
name = "kernel_tasks"
version = "0.1.0"
edition = "2021"
publish = false

[dependencies]
crossbeam-queue = "0.3"
pc-keyboard = "0.7"
futures-util = { version = "0.3", default-features = false, features = ["alloc"] }
conquer-once = { version = "*", default-features = false }
x86_64 = { version = "0.15", default-features = false, features = ["instructions"] }
bootloader = { version = "0.9", features = ["map_physical_memory"] }
