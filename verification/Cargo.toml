[package]
name = "virtio_net"
version = "0.1.0"
edition = "2021"
publish = false

[dependencies]
virtio-queue = "=0.18.0"
vm-memory = { version = "=0.18.0", features = ["backend-mmap"] }
vmm-sys-util = "=0.15.0"
linux-loader = { version = "=0.14.0", features = ["elf"] }
vm-allocator = "*"
vm-device = "*"

[dev-dependencies]
virtio-bindings = "=0.2.7"
