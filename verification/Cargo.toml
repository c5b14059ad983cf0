[package]
name = "ruost"
version = "0.1.0"
edition = "2021"
publish = false

[dependencies]
crossbeam-queue = "*"
pc-keyboard = "*"
linked_list_allocator = "*"
