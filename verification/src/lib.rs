//! Hardware abstraction for a FujiNet-style network peripheral: device-spec
//! parsing, protocol registry, per-unit device state, HTTP protocol handling
//! and the error codes handed to C callers.

pub mod adapters;
pub mod base;
pub mod device;
pub mod ffi;
pub mod host;
pub mod peripheral;
pub mod platform;
