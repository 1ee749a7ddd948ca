pub mod client_provider;
pub mod factory;
pub mod http;
pub mod http_client;
pub mod protocol_handler;
pub mod registry;

pub use client_provider::{BoxedHttpClient, HttpClientProvider};
pub use factory::ProtocolFactory;
pub use http::HttpProtocol;
pub use http_client::{BaseHttpClient, HeaderMap, HttpClient, HttpState};
pub use protocol_handler::{ConnectionStatus, ProtocolHandler};
pub use registry::{is_protocol_supported, BoxedProtocolHandler, NetworkProtocol, ProtocolHandlerFactory, ProtocolRegistry};
