//! A session layer over serial ports: a registry of open ports keyed by small
//! integer handles, and byte-buffer operations that decode their arguments,
//! resolve a handle and encode a result.
pub mod codec;
pub mod device;
pub mod registry;
pub mod enumerate;
pub mod dispatch;
