[package]
name = "kernel"
version = "0.1.0"
edition = "2021"
publish = false

[dependencies]
aarch64-paging = "=0.10.0"
buddy_system_allocator = "=0.13.0"
limine = "=0.5.0"
flanterm = "=0.0.2"
dtb = "=0.2.0"
