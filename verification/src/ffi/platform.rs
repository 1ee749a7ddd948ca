use vstd::prelude::*;

use crate::device::manager::{url_opt_view, DeviceState, MAX_NETWORK_DEVICES};
use crate::device::network::protocols::{is_protocol_supported, HttpClientProvider, NetworkProtocol};
use crate::device::network::url::{lemma_parsed_url_well_formed, parse_spec, NetworkUrl};

verus! {

/// The settings of each network unit opened through the C interface.
pub struct NetworkDeviceManager {
    devices: [DeviceState; 8],
}

impl NetworkDeviceManager {
    /// The state of every unit, by index.
    pub closed spec fn states(&self) -> Seq<DeviceState> {
        self.devices@
    }

    /// All units idle.
    pub fn new() -> (r: Self)
        ensures
            r.states().len() == MAX_NETWORK_DEVICES,
            forall|i: int| 0 <= i < MAX_NETWORK_DEVICES ==> (#[trigger] r.states()[i]).url is None
                && r.states()[i].client is None,
    {
        NetworkDeviceManager {
            devices: [
                DeviceState { mode: 0, trans: 0, url: None, client: None },
                DeviceState { mode: 0, trans: 0, url: None, client: None },
                DeviceState { mode: 0, trans: 0, url: None, client: None },
                DeviceState { mode: 0, trans: 0, url: None, client: None },
                DeviceState { mode: 0, trans: 0, url: None, client: None },
                DeviceState { mode: 0, trans: 0, url: None, client: None },
                DeviceState { mode: 0, trans: 0, url: None, client: None },
                DeviceState { mode: 0, trans: 0, url: None, client: None },
            ],
        }
    }

    /// The state of unit `device_id`, when there is such a unit.
    pub fn get_device(&mut self, device_id: usize) -> (r: Option<&mut DeviceState>)
        ensures
            r is Some == (device_id < MAX_NETWORK_DEVICES),
            r matches Some(d) ==> *d == old(self).states()[device_id as int]
                && final(self).states() == old(self).states().update(device_id as int, *final(d)),
            r is None ==> final(self).states() == old(self).states(),
    {
        if device_id < MAX_NETWORK_DEVICES {
            Some(&mut self.devices[device_id])
        } else {
            None
        }
    }

    /// Opens the unit that `devicespec` names (`None`: the spec could not be read):
    /// records mode, translation and URL and gives the unit a client from
    /// `provider` if it has none. Returns 0, or 2 (bad command) for an unreadable
    /// or invalid spec or a scheme other than HTTP's; nothing changes then.
    pub fn open(&mut self, devicespec: Option<&str>, mode: u8, trans: u8, provider: &dyn HttpClientProvider) -> (r: u8)
        ensures
            r == 0 || r == 2,
            r == 0 <==> (devicespec matches Some(s) && parse_spec(s@) matches Ok(m)
                && m.protocol == NetworkProtocol::Http),
            r == 2 ==> final(self).states() == old(self).states(),
            r == 0 ==> ({
                let m = parse_spec(devicespec->Some_0@)->Ok_0;
                let id = m.unit - 1;
                &&& 0 <= id < MAX_NETWORK_DEVICES
                &&& final(self).states().len() == old(self).states().len()
                &&& forall|i: int| 0 <= i < old(self).states().len() && i != id ==>
                        #[trigger] final(self).states()[i] == old(self).states()[i]
                &&& final(self).states()[id].mode == mode
                &&& final(self).states()[id].trans == trans
                &&& url_opt_view(final(self).states()[id].url) == Some(m)
                &&& final(self).states()[id].client is Some
            }),
    {
        let devicespec = match devicespec {
            Some(s) => s,
            None => return 2,
        };
        let url = match NetworkUrl::parse(devicespec) {
            Ok(url) => url,
            Err(_) => return 2,
        };
        proof {
            lemma_parsed_url_well_formed(devicespec@);
        }
        match url.scheme() {
            Ok(scheme) => {
                if !is_protocol_supported(scheme) {
                    return 2;
                }
            },
            Err(_) => return 2,
        }
        let device_id = (url.unit - 1) as usize;
        if let Some(device) = self.get_device(device_id) {
            device.mode = mode;
            device.trans = trans;
            device.url = Some(url);
            if device.client.is_none() {
                device.client = Some(provider.create_http_client().0);
            }
            0
        } else {
            2
        }
    }
}

} // verus!
