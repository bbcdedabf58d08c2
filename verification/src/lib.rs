//! A virtio network device behind a legacy virtio-mmio register window.
//!
//! The register protocol, the device status machine, feature negotiation and
//! the layout of transfers over descriptor chains are verified. Guest memory
//! and the split virtqueues are reached through a handful of trusted functions
//! in `ring`.

pub mod bytes;
pub mod config_space;
pub mod ring;
pub mod transfer;
pub mod error;
pub mod features;
pub mod mmio;
pub mod device;
pub mod boot;
