pub mod common;
pub mod ffi;
