//! Verified core of a virtio block-device driver.
//!
//! The register and queue I/O of the device stays with the caller; this crate
//! holds what the driver decides: how requests are laid out, how completions
//! are judged, in which order the device is brought up, how file-system block
//! transfers map onto device sectors, and the patterns of the self tests.

pub mod error;
pub mod queue;
pub mod virtio_defs;
pub mod buffers;
pub mod request;
pub mod driver;
pub mod init;
pub mod adapter;
pub mod selftest;
