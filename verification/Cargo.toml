[package]
name = "virtio_blk"
version = "0.1.0"
edition = "2021"
publish = false

[dependencies]
virtio-spec = { version = "=0.4.0", features = ["mmio", "pci"] }
volatile = "=0.6.1"
smallvec = "=1.16.4"
embedded-sdmmc = "=0.9.0"
pci_types = "=0.10.1"
thiserror = "=2.0.21"
