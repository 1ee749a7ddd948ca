pub mod error;
pub mod network;
