use vstd::prelude::*;

use crate::device::network::protocols::HttpClient;
use crate::device::network::url::{NetworkUrl, NetworkUrlModel};

verus! {

/// Maximum number of network devices supported.
pub const MAX_NETWORK_DEVICES: usize = 8;

/// Settings and connection of one network unit.
pub struct DeviceState {
    pub mode: u8,
    pub trans: u8,
    pub url: Option<NetworkUrl>,
    pub client: Option<Box<dyn HttpClient>>,
}

/// The model of an optional URL.
pub open spec fn url_opt_view(u: Option<NetworkUrl>) -> Option<NetworkUrlModel> {
    match u {
        Some(u) => Some(u@),
        None => None,
    }
}

/// A unit with nothing set.
pub open spec fn is_idle_state(d: DeviceState) -> bool {
    d.mode == 0 && d.trans == 0 && d.url is None && d.client is None
}

impl Default for DeviceState {
    fn default() -> (r: Self)
        ensures
            is_idle_state(r),
    {
        DeviceState { mode: 0, trans: 0, url: None, client: None }
    }
}

/// The state of each of the network units.
pub struct DeviceManager {
    devices: [DeviceState; 8],
}

impl DeviceManager {
    /// The state of every unit, by index.
    pub closed spec fn states(&self) -> Seq<DeviceState> {
        self.devices@
    }

    /// There is one state per unit.
    pub broadcast proof fn lemma_states_len(&self)
        ensures
            #[trigger] self.states().len() == MAX_NETWORK_DEVICES,
    {
    }

    /// All units idle.
    pub fn new() -> (r: Self)
        ensures
            r.states().len() == MAX_NETWORK_DEVICES,
            forall|i: int| 0 <= i < MAX_NETWORK_DEVICES ==> is_idle_state(#[trigger] r.states()[i]),
    {
        DeviceManager {
            devices: [
                DeviceState::default(),
                DeviceState::default(),
                DeviceState::default(),
                DeviceState::default(),
                DeviceState::default(),
                DeviceState::default(),
                DeviceState::default(),
                DeviceState::default(),
            ],
        }
    }

    /// The state of unit `device_id`, if there is such a unit.
    pub fn get_device(&mut self, device_id: usize) -> (r: Option<&mut DeviceState>)
        ensures
            old(self).states().len() == MAX_NETWORK_DEVICES,
            r is Some == (device_id < MAX_NETWORK_DEVICES),
            r matches Some(d) ==> *d == old(self).states()[device_id as int]
                && final(self).states() == old(self).states().update(device_id as int, *final(d)),
            r is None ==> final(self).states() == old(self).states(),
    {
        if device_id < MAX_NETWORK_DEVICES {
            Some(&mut self.devices[device_id])
        } else {
            None
        }
    }

    /// Records mode, translation and URL of unit `device_id`; false when there is no such unit.
    pub fn set_device_state(&mut self, device_id: usize, mode: u8, trans: u8, url: NetworkUrl) -> (r: bool)
        ensures
            r == (device_id < MAX_NETWORK_DEVICES),
            r ==> final(self).states() == old(self).states().update(
                device_id as int,
                DeviceState { mode, trans, url: Some(url), client: old(self).states()[device_id as int].client },
            ),
            !r ==> final(self).states() == old(self).states(),
    {
        if let Some(device) = self.get_device(device_id) {
            device.mode = mode;
            device.trans = trans;
            device.url = Some(url);
            true
        } else {
            false
        }
    }

    /// Gives unit `device_id` its HTTP client; false when there is no such unit.
    pub fn set_device_client(&mut self, device_id: usize, client: Box<dyn HttpClient>) -> (r: bool)
        ensures
            r == (device_id < MAX_NETWORK_DEVICES),
            r ==> final(self).states().len() == old(self).states().len(),
            r ==> forall|i: int| 0 <= i < MAX_NETWORK_DEVICES && i != device_id ==>
                #[trigger] final(self).states()[i] == old(self).states()[i],
            r ==> final(self).states()[device_id as int].client == Some(client),
            r ==> final(self).states()[device_id as int].mode == old(self).states()[device_id as int].mode,
            r ==> final(self).states()[device_id as int].trans == old(self).states()[device_id as int].trans,
            r ==> final(self).states()[device_id as int].url == old(self).states()[device_id as int].url,
            !r ==> final(self).states() == old(self).states(),
    {
        if let Some(device) = self.get_device(device_id) {
            let mut given = Some(client);
            std::mem::swap(&mut device.client, &mut given);
            true
        } else {
            false
        }
    }
}

} // verus!
