use vstd::prelude::*;

use crate::device::{DeviceError, DeviceResult};
use crate::device::network::network_device::{NetworkDevice, NetworkDeviceImpl};
use crate::device::network::url::NetworkUrl;
use super::registry::{NetworkProtocol, ProtocolHandlerFactory, ProtocolRegistry};

verus! {

/// Creates and keeps the network device of each unit; each unit has at most one.
pub struct ProtocolFactory {
    active_devices: [Option<Box<dyn NetworkDevice>>; 8],
    registry: ProtocolRegistry,
}

impl ProtocolFactory {
    /// The device of each unit, by index.
    pub closed spec fn devices(&self) -> Seq<Option<Box<dyn NetworkDevice>>> {
        self.active_devices@
    }

    /// The factory that creates handlers for `protocol`, if any.
    pub closed spec fn factory_for(&self, protocol: NetworkProtocol) -> Option<Box<dyn ProtocolHandlerFactory>> {
        self.registry.factory_for(protocol)
    }

    /// The protocols the factory can create devices for.
    pub closed spec fn registered(&self) -> Set<NetworkProtocol> {
        self.registry.registered()
    }

    /// There is one device slot per unit.
    pub broadcast proof fn lemma_devices_len(&self)
        ensures
            #[trigger] self.devices().len() == 8,
    {
    }

    /// A factory with no devices that creates handlers with `registry`.
    pub fn new(registry: ProtocolRegistry) -> (r: Self)
        ensures
            r.devices().len() == 8,
            forall|i: int| 0 <= i < 8 ==> #[trigger] r.devices()[i] is None,
            r.registered() == registry.registered(),
    {
        ProtocolFactory { active_devices: [None, None, None, None, None, None, None, None], registry }
    }

    fn slot(&mut self, device_id: usize) -> (r: &mut Option<Box<dyn NetworkDevice>>)
        requires
            device_id < 8,
        ensures
            *r == old(self).devices()[device_id as int],
            final(self).devices() == old(self).devices().update(device_id as int, *final(r)),
            final(self).registered() == old(self).registered(),
            final(self).registry == old(self).registry,
    {
        &mut self.active_devices[device_id]
    }

    /// Returns `device_id` once unit `device_id` has a device: the one it has, or a
    /// new one for `url` with a handler for `protocol`; `UnsupportedProtocol` when a
    /// device is needed and no factory is registered for `protocol`.
    pub fn get_or_create_device(&mut self, device_id: usize, protocol: NetworkProtocol, url: &NetworkUrl) -> (r: DeviceResult<usize>)
        requires
            device_id < 8,
        ensures
            old(self).devices().len() == 8,
            final(self).registered() == old(self).registered(),
            forall|p: NetworkProtocol| #[trigger] final(self).factory_for(p) == old(self).factory_for(p),
            old(self).devices()[device_id as int] is Some ==> r == Ok::<usize, DeviceError>(device_id)
                && final(self).devices() == old(self).devices(),
            old(self).devices()[device_id as int] is None && old(self).registered().contains(protocol) ==>
                r == Ok::<usize, DeviceError>(device_id) && final(self).devices().len() == 8
                && final(self).devices()[device_id as int] is Some
                && final(self).devices()[device_id as int]->Some_0.endpoint_spec() == url.url@
                && final(self).devices()[device_id as int]->Some_0.handler_status()
                    == old(self).factory_for(protocol)->Some_0.new_handler_status()
                && (final(self).devices()[device_id as int]->Some_0.handler_sent() is Some
                    == old(self).factory_for(protocol)->Some_0.creates_http())
                && forall|i: int| 0 <= i < 8 && i != device_id ==> #[trigger] final(self).devices()[i] == old(self).devices()[i],
            old(self).devices()[device_id as int] is None && !old(self).registered().contains(protocol) ==>
                r == Err::<usize, DeviceError>(DeviceError::UnsupportedProtocol)
                && final(self).devices() == old(self).devices(),
    {
        if self.active_devices[device_id].is_some() {
            return Ok(device_id);
        }
        let handler = match self.registry.create_handler(protocol) {
            Ok(h) => h,
            Err(e) => return Err(e),
        };
        // The device is made around an idle handler, which is then swapped for the
        // factory's: moved through `swap`, the handler stays the very value the
        // factory made.
        let mut made = NetworkDeviceImpl::new(url.url.clone(), Box::new(crate::peripheral::HttpProtocol::default()));
        let mut handler = handler;
        std::mem::swap(made.protocol_mut(), &mut handler);
        let device: Box<dyn NetworkDevice> = Box::new(made);
        let mut given = Some(device);
        let slot = self.slot(device_id);
        std::mem::swap(slot, &mut given);
        Ok(device_id)
    }

    /// The device of unit `device_id`.
    pub fn get_device(&mut self, device_id: usize) -> (r: Option<&mut Box<dyn NetworkDevice>>)
        requires
            device_id < 8,
        ensures
            r is Some == old(self).devices()[device_id as int] is Some,
            final(self).registered() == old(self).registered(),
            final(self).devices().len() == old(self).devices().len(),
            forall|i: int| 0 <= i < 8 && i != device_id ==> #[trigger] final(self).devices()[i] == old(self).devices()[i],
            final(self).devices()[device_id as int] is Some == old(self).devices()[device_id as int] is Some,
            r matches Some(d) ==> old(self).devices()[device_id as int] == Some(*d)
                && final(self).devices()[device_id as int] == Some(*final(d)),
    {
        let slot = self.slot(device_id);
        slot.as_mut()
    }

    /// Disconnects and drops the device of unit `device_id`; a unit without a
    /// device is left as it is. When disconnecting fails the device stays.
    pub fn close_device(&mut self, device_id: usize) -> (r: DeviceResult<()>)
        requires
            device_id < 8,
        ensures
            final(self).registered() == old(self).registered(),
            final(self).devices().len() == old(self).devices().len(),
            forall|i: int| 0 <= i < 8 && i != device_id ==> #[trigger] final(self).devices()[i] == old(self).devices()[i],
            old(self).devices()[device_id as int] is None ==> r is Ok && final(self).devices() == old(self).devices(),
            r is Ok ==> final(self).devices()[device_id as int] is None,
            r is Err ==> final(self).devices()[device_id as int] is Some,
    {
        let slot = self.slot(device_id);
        match slot {
            Some(device) => {
                match device.disconnect() {
                    Ok(()) => {},
                    Err(e) => return Err(e),
                }
                *slot = None;
                Ok(())
            },
            None => Ok(()),
        }
    }
}

} // verus!
