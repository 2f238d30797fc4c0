[package]
name = "vmm"
version = "0.1.0"
edition = "2021"
publish = false

[dependencies]
vm-allocator = "*"
vm-memory = { version = "*", features = ["backend-mmap"] }
libc = "*"
kvm-bindings = "*"
vmm-sys-util = "*"
linux-loader = "*"
serde = { version = "*", features = ["derive"] }
serde_json = "*"
thiserror = "*"
displaydoc = "*"
log = "*"
zerocopy = "*"
rand = "*"
caps = "*"
event-manager = "*"
