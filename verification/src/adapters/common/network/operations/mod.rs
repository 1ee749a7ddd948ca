pub mod base;
pub mod context;
pub mod http;
pub mod types;

pub use context::OperationsContext;
pub use types::{DeviceOpenRequest, HttpGetRequest, HttpPostRequest};
