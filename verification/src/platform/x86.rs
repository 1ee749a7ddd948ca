use vstd::prelude::*;

use crate::device::network::manager::NetworkManagerImpl;
use crate::device::{DeviceError, DeviceResult};
use crate::device::network::protocols::{ConnectionStatus, 
    BoxedProtocolHandler, HttpClientProvider, HttpProtocol, NetworkProtocol, ProtocolHandlerFactory, ProtocolRegistry,
};
use crate::device::manager::MAX_NETWORK_DEVICES;

verus! {

/// Creates HTTP protocol handlers whose clients come from one provider.
pub struct HttpProtocolFactory {
    provider: Box<dyn HttpClientProvider>,
}

impl HttpProtocolFactory {
    /// A factory whose handlers get their clients from `provider`.
    pub fn new(provider: Box<dyn HttpClientProvider>) -> Self {
        HttpProtocolFactory { provider }
    }
}

impl ProtocolHandlerFactory for HttpProtocolFactory {
    /// HTTP handlers start disconnected.
    open spec fn new_handler_status(&self) -> DeviceResult<ConnectionStatus> {
        Ok(ConnectionStatus::Disconnected)
    }

    open spec fn creates_http(&self) -> bool {
        true
    }

    /// A new HTTP handler, not yet opened, with a fresh client from the provider.
    fn create_handler(&self) -> (r: BoxedProtocolHandler) {
        BoxedProtocolHandler(Box::new(HttpProtocol::from_client(self.provider.create_http_client().0)))
    }
}

/// A registry that knows HTTP, with clients from `provider`.
pub fn create_protocol_registry(provider: Box<dyn HttpClientProvider>) -> (r: ProtocolRegistry)
    ensures
        r.registered() == set![NetworkProtocol::Http],
        r.factory_for(NetworkProtocol::Http) matches Some(f)
            && f.new_handler_status() == Ok::<ConnectionStatus, DeviceError>(ConnectionStatus::Disconnected)
            && f.creates_http(),
{
    let mut registry = ProtocolRegistry::new();
    registry.register(NetworkProtocol::Http, Box::new(HttpProtocolFactory::new(provider)));
    assert(registry.registered() =~= set![NetworkProtocol::Http]);
    registry
}

/// A network manager with idle units that can create HTTP devices, with clients
/// from `provider`.
pub fn create_network_manager(provider: Box<dyn HttpClientProvider>) -> (r: NetworkManagerImpl)
    ensures
        r.registered() == set![NetworkProtocol::Http],
        forall|i: int| 0 <= i < MAX_NETWORK_DEVICES ==> #[trigger] r.devices()[i] is None,
        forall|i: int| 0 <= i < MAX_NETWORK_DEVICES ==> (#[trigger] r.states()[i]).url is None,
{
    NetworkManagerImpl::with_registry(create_protocol_registry(provider))
}

} // verus!
