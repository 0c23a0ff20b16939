//! The crates whose types occur in this library's signatures.

/// A re-export of the [crossbeam-channel](https://crates.io/crates/crossbeam-channel) crate.
pub use crossbeam_channel;
