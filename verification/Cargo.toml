[package]
name = "vmm"
version = "0.1.0"
edition = "2021"
publish = false

[dependencies]
displaydoc = "=0.2.7"
libc = "=0.2.191"
semver = { version = "=1.0.28", features = ["serde"] }
serde = { version = "=1.0.229", features = ["derive"] }
serde_json = "=1.0.154"
thiserror = "=2.0.21"
userfaultfd = { version = "=0.9.0", features = ["linux4_14"] }
vm-memory = { version = "=0.17.1", features = ["backend-mmap"] }
vmm-sys-util = { version = "=0.15.0", features = ["with-serde"] }
