use vstd::prelude::*;

use crate::device::{DeviceError, DeviceResult};
use crate::device::manager::{url_opt_view, DeviceManager, DeviceState, MAX_NETWORK_DEVICES};
use super::network_device::NetworkDevice;
use super::protocols::{NetworkProtocol, ProtocolFactory, ProtocolHandlerFactory, ProtocolRegistry};
use super::protocols::registry::protocol_named;
use super::protocols::http_client::SentRequest;
use super::url::{lemma_parsed_url_well_formed, parse_spec, scheme_of, NetworkUrl, NetworkUrlModel};

verus! {

broadcast use {DeviceManager::lemma_states_len, ProtocolFactory::lemma_devices_len};

/// The model of a parsed device spec: the unit's index and its URL.
pub open spec fn spec_result_view(r: DeviceResult<(usize, NetworkUrl)>) -> Result<(usize, NetworkUrlModel), DeviceError> {
    match r {
        Ok((id, u)) => Ok((id, u@)),
        Err(e) => Err(e),
    }
}

/// Interface for network manager operations.
pub trait NetworkManager {
    /// Whether this kind of manager can address unit index `device_id`.
    spec fn spec_unit_in_range(device_id: usize) -> bool;

    /// What parsing the device spec `spec` yields for this manager.
    spec fn spec_parse(&self, spec: Seq<char>) -> Result<(usize, NetworkUrlModel), DeviceError>;

    /// The URL recorded for unit `device_id`: `None` when there is no such unit.
    spec fn spec_unit_url(&self, device_id: usize) -> Option<Option<NetworkUrlModel>>;

    /// Whether unit `device_id` has a network device.
    spec fn spec_has_network_device(&self, device_id: usize) -> bool;

    /// What opening the device spec `spec` yields for this manager.
    spec fn spec_open(&self, spec: Seq<char>) -> Result<(), DeviceError>;

    /// Whether opening `spec` with `mode` and `trans` may take this manager to
    /// `after` with result `r`.
    spec fn spec_open_effect(&self, after: &Self, spec: Seq<char>, mode: u8, trans: u8, r: DeviceResult<()>) -> bool;

    /// Whether closing unit `device_id` may take this manager to `after` with
    /// result `r`.
    spec fn spec_close_effect(&self, after: &Self, device_id: usize, r: DeviceResult<bool>) -> bool;

    /// For a unit whose device has an HTTP handler, the requests that handler has
    /// sent so far; `None` otherwise.
    spec fn spec_sent(&self, device_id: usize) -> Option<Seq<SentRequest>>;

    /// For a unit whose device has an HTTP handler, that handler's answer to its
    /// last request, once there has been one.
    spec fn spec_last_reply(&self, device_id: usize) -> Option<DeviceResult<Seq<u8>>>;

    /// Parses and validates a device spec, returning the unit's index and its URL.
    fn parse_device_spec(&self, spec: &str) -> (r: DeviceResult<(usize, NetworkUrl)>)
        ensures
            spec_result_view(r) == self.spec_parse(spec@),
            r matches Ok((id, _)) ==> Self::spec_unit_in_range(id);

    /// Opens a device with the given spec, mode and translation.
    fn open_device(&mut self, spec: &str, mode: u8, trans: u8) -> (r: DeviceResult<()>)
        ensures
            r == old(self).spec_open(spec@),
            old(self).spec_open_effect(&*final(self), spec@, mode, trans, r);

    /// Finds the device that `spec` names, with its index and state, if it exists.
    fn find_device(&mut self, spec: &str) -> DeviceResult<Option<(usize, &mut DeviceState)>>;

    /// The state of unit `device_id`.
    fn get_device(&mut self, device_id: usize) -> (r: Option<&mut DeviceState>)
        ensures
            match r {
                Some(d) => old(self).spec_unit_url(device_id) == Some(url_opt_view(d.url))
                    && final(self).spec_unit_url(device_id) == Some(url_opt_view(final(d).url)),
                None => old(self).spec_unit_url(device_id) is None,
            },
            forall|i: usize| i != device_id || r is None ==>
                #[trigger] final(self).spec_unit_url(i) == old(self).spec_unit_url(i),
            forall|i: usize| #[trigger] final(self).spec_has_network_device(i) == old(self).spec_has_network_device(i),
            forall|s: Seq<char>| #[trigger] final(self).spec_parse(s) == old(self).spec_parse(s),
            forall|i: usize| #[trigger] final(self).spec_sent(i) == old(self).spec_sent(i),
            forall|i: usize| #[trigger] final(self).spec_last_reply(i) == old(self).spec_last_reply(i);

    /// Closes unit `device_id`; whether there was such a unit.
    fn close_device(&mut self, device_id: usize) -> (r: DeviceResult<bool>)
        requires
            Self::spec_unit_in_range(device_id),
        ensures
            old(self).spec_close_effect(&*final(self), device_id, r);

    /// The network device of unit `device_id`.
    fn get_network_device(&mut self, device_id: usize) -> (r: Option<&mut Box<dyn NetworkDevice>>)
        requires
            Self::spec_unit_in_range(device_id),
        ensures
            r is Some == old(self).spec_has_network_device(device_id),
            r matches Some(d) ==> d.handler_sent() == old(self).spec_sent(device_id)
                && final(self).spec_sent(device_id) == final(d).handler_sent()
                && final(self).spec_last_reply(device_id) == final(d).handler_last_reply();
}

/// What parsing a device spec yields: the unit's index (unit minus one) and its URL.
pub open spec fn parse_device_spec_model(spec: Seq<char>) -> Result<(usize, NetworkUrlModel), DeviceError> {
    match parse_spec(spec) {
        Err(e) => Err(e),
        Ok(m) => if m.unit - 1 >= MAX_NETWORK_DEVICES {
            Err(DeviceError::InvalidDeviceId)
        } else {
            Ok(((m.unit - 1) as usize, m))
        },
    }
}

/// Network manager that keeps unit state and creates devices through a protocol factory.
pub struct NetworkManagerImpl {
    device_manager: DeviceManager,
    protocol_factory: ProtocolFactory,
}

impl NetworkManagerImpl {
    /// The state of every unit.
    pub closed spec fn states(&self) -> Seq<DeviceState> {
        self.device_manager.states()
    }

    /// The network device of every unit.
    pub closed spec fn devices(&self) -> Seq<Option<Box<dyn NetworkDevice>>> {
        self.protocol_factory.devices()
    }

    /// The protocols devices can be created for.
    pub closed spec fn registered(&self) -> Set<NetworkProtocol> {
        self.protocol_factory.registered()
    }

    /// The factory that creates handlers for `protocol`, if any.
    pub closed spec fn factory_for(&self, protocol: NetworkProtocol) -> Option<Box<dyn ProtocolHandlerFactory>> {
        self.protocol_factory.factory_for(protocol)
    }

    /// A manager with idle units and no protocol registered.
    pub fn new() -> (r: Self)
        ensures
            r.registered() == Set::<NetworkProtocol>::empty(),
            forall|i: int| 0 <= i < MAX_NETWORK_DEVICES ==> #[trigger] r.devices()[i] is None,
            forall|i: int| 0 <= i < MAX_NETWORK_DEVICES ==> (#[trigger] r.states()[i]).url is None,
    {
        Self::with_registry(ProtocolRegistry::new())
    }

    /// A manager with idle units that creates handlers with `registry`.
    pub fn with_registry(registry: ProtocolRegistry) -> (r: Self)
        ensures
            r.registered() == registry.registered(),
            forall|i: int| 0 <= i < MAX_NETWORK_DEVICES ==> #[trigger] r.devices()[i] is None,
            forall|i: int| 0 <= i < MAX_NETWORK_DEVICES ==> (#[trigger] r.states()[i]).url is None,
    {
        NetworkManagerImpl { device_manager: DeviceManager::new(), protocol_factory: ProtocolFactory::new(registry) }
    }
}

/// What looking up the device that `spec` names yields, given every unit's device:
/// the unit's index when it has a device, nothing when it has none, the parse
/// error when `spec` does not parse.
pub open spec fn find_outcome(devices: Seq<Option<Box<dyn NetworkDevice>>>, spec: Seq<char>) -> Result<Option<usize>, DeviceError> {
    match parse_device_spec_model(spec) {
        Err(e) => Err(e),
        Ok((id, _)) => if devices[id as int] is Some {
            Ok(Some(id))
        } else {
            Ok(None)
        },
    }
}

/// What `find_device` found for `spec` in manager `m`: unit `id`, which has a
/// device, with `state` being that unit's recorded state.
pub open spec fn found_state(m: NetworkManagerImpl, spec: Seq<char>, id: usize, state: DeviceState) -> bool {
    &&& find_outcome(m.devices(), spec) == Ok::<Option<usize>, DeviceError>(Some(id))
    &&& state == m.states()[id as int]
}

/// How opening `spec` with `mode` and `trans` takes `before` to `after` with result
/// `r`: a spec that does not parse changes nothing; otherwise the unit records mode,
/// translation and URL, and it succeeds, with a device, exactly when the unit
/// already had a device or the URL's protocol is registered.
pub open spec fn open_effect(
    before: NetworkManagerImpl,
    after: NetworkManagerImpl,
    spec: Seq<char>,
    mode: u8,
    trans: u8,
    r: DeviceResult<()>,
) -> bool {
    &&& after.registered() == before.registered()
    &&& after.states().len() == MAX_NETWORK_DEVICES
    &&& after.devices().len() == MAX_NETWORK_DEVICES
    &&& match parse_device_spec_model(spec) {
        Err(e) => r == Err::<(), DeviceError>(e) && after.states() == before.states() && after.devices() == before.devices(),
        Ok((id, m)) => {
            &&& url_opt_view(after.states()[id as int].url) == Some(m)
            &&& after.states()[id as int].mode == mode
            &&& after.states()[id as int].trans == trans
            &&& forall|i: int| 0 <= i < MAX_NETWORK_DEVICES && i != id ==> #[trigger] after.states()[i] == before.states()[i]
            &&& forall|i: int| 0 <= i < MAX_NETWORK_DEVICES && i != id ==> #[trigger] after.devices()[i] == before.devices()[i]
            &&& (before.devices()[id as int] is Some || before.registered().contains(m.protocol)) ==>
                    r is Ok && after.devices()[id as int] is Some
            &&& (before.devices()[id as int] is None && !before.registered().contains(m.protocol)) ==>
                    r == Err::<(), DeviceError>(DeviceError::UnsupportedProtocol)
            &&& before.devices()[id as int] is Some ==> after.devices()[id as int] == before.devices()[id as int]
            &&& (before.devices()[id as int] is None && before.registered().contains(m.protocol)) ==> {
                    let d = after.devices()[id as int]->Some_0;
                    let f = before.factory_for(m.protocol)->Some_0;
                    &&& d.endpoint_spec() == m.url
                    &&& d.handler_status() == f.new_handler_status()
                    &&& (d.handler_sent() is Some == f.creates_http())
                }
        },
    }
}

/// How closing unit `device_id` takes `before` to `after` with result `r`: a
/// successful close leaves the unit without device and settings and reports that
/// it closed; a unit without a device always closes; a failed close keeps every
/// unit's settings and the unit's device.
pub open spec fn close_effect(before: NetworkManagerImpl, after: NetworkManagerImpl, device_id: usize, r: DeviceResult<bool>) -> bool {
    &&& after.registered() == before.registered()
    &&& after.states().len() == MAX_NETWORK_DEVICES
    &&& after.devices().len() == MAX_NETWORK_DEVICES
    &&& forall|i: int| 0 <= i < MAX_NETWORK_DEVICES && i != device_id ==> #[trigger] after.devices()[i] == before.devices()[i]
    &&& r is Ok ==> r == Ok::<bool, DeviceError>(true)
        && after.devices()[device_id as int] is None
        && after.states()[device_id as int].url is None
        && after.states()[device_id as int].mode == 0
        && after.states()[device_id as int].trans == 0
    &&& before.devices()[device_id as int] is None ==> r is Ok
    &&& r is Err ==> after.states() == before.states() && after.devices()[device_id as int] is Some
}

impl NetworkManager for NetworkManagerImpl {
    open spec fn spec_unit_in_range(device_id: usize) -> bool {
        device_id < MAX_NETWORK_DEVICES
    }

    open spec fn spec_parse(&self, spec: Seq<char>) -> Result<(usize, NetworkUrlModel), DeviceError> {
        parse_device_spec_model(spec)
    }

    open spec fn spec_unit_url(&self, device_id: usize) -> Option<Option<NetworkUrlModel>> {
        if device_id < MAX_NETWORK_DEVICES {
            Some(url_opt_view(self.states()[device_id as int].url))
        } else {
            None
        }
    }

    open spec fn spec_open_effect(&self, after: &Self, spec: Seq<char>, mode: u8, trans: u8, r: DeviceResult<()>) -> bool {
        open_effect(*self, *after, spec, mode, trans, r)
    }

    open spec fn spec_close_effect(&self, after: &Self, device_id: usize, r: DeviceResult<bool>) -> bool {
        close_effect(*self, *after, device_id, r)
    }

    open spec fn spec_sent(&self, device_id: usize) -> Option<Seq<SentRequest>> {
        match self.devices()[device_id as int] {
            Some(d) => d.handler_sent(),
            None => None,
        }
    }

    open spec fn spec_last_reply(&self, device_id: usize) -> Option<DeviceResult<Seq<u8>>> {
        match self.devices()[device_id as int] {
            Some(d) => d.handler_last_reply(),
            None => None,
        }
    }

    open spec fn spec_has_network_device(&self, device_id: usize) -> bool {
        self.devices()[device_id as int] is Some
    }

    open spec fn spec_open(&self, spec: Seq<char>) -> Result<(), DeviceError> {
        match parse_device_spec_model(spec) {
            Err(e) => Err(e),
            Ok((id, m)) => if self.devices()[id as int] is Some || self.registered().contains(m.protocol) {
                Ok(())
            } else {
                Err(DeviceError::UnsupportedProtocol)
            },
        }
    }

    /// Parses the spec; the unit's index is its number minus one.
    fn parse_device_spec(&self, spec: &str) -> (r: DeviceResult<(usize, NetworkUrl)>)
        ensures
            spec_result_view(r) == parse_device_spec_model(spec@),
    {
        let url = match NetworkUrl::parse(spec) {
            Ok(u) => u,
            Err(e) => return Err(e),
        };
        proof {
            lemma_parsed_url_well_formed(spec@);
        }
        let device_id = (url.unit - 1) as usize;
        if device_id >= MAX_NETWORK_DEVICES {
            return Err(DeviceError::InvalidDeviceId);
        }
        Ok((device_id, url))
    }

    /// Records mode, translation and URL for the unit the spec names, then makes
    /// sure the unit has a device for the URL's protocol.
    fn open_device(&mut self, spec: &str, mode: u8, trans: u8) -> (r: DeviceResult<()>)
        ensures
            open_effect(*old(self), *final(self), spec@, mode, trans, r),
    {
        let (device_id, url) = match self.parse_device_spec(spec) {
            Ok(p) => p,
            Err(e) => return Err(e),
        };
        proof {
            lemma_parsed_url_well_formed(spec@);
        }
        if !self.device_manager.set_device_state(device_id, mode, trans, url.clone()) {
            return Err(DeviceError::InvalidDeviceId);
        }
        let scheme = match url.scheme() {
            Ok(s) => s,
            Err(e) => return Err(e),
        };
        let protocol = match NetworkProtocol::from_str(scheme) {
            Some(p) => p,
            None => return Err(DeviceError::UnsupportedProtocol),
        };
        match self.protocol_factory.get_or_create_device(device_id, protocol, &url) {
            Ok(_) => Ok(()),
            Err(e) => Err(e),
        }
    }

    /// The index and state of the unit the spec names, when that unit has a device.
    fn find_device(&mut self, spec: &str) -> (r: DeviceResult<Option<(usize, &mut DeviceState)>>)
        ensures
            match r {
                Ok(Some((i, _))) => find_outcome(old(self).devices(), spec@) == Ok::<Option<usize>, DeviceError>(Some(i)),
                Ok(None) => find_outcome(old(self).devices(), spec@) == Ok::<Option<usize>, DeviceError>(None),
                Err(e) => find_outcome(old(self).devices(), spec@) == Err::<Option<usize>, DeviceError>(e),
            },
            r matches Ok(Some((i, s))) ==> found_state(*old(self), spec@, i, *s)
                && final(self).states() == old(self).states().update(i as int, *final(s)),
            !(r matches Ok(Some(_))) ==> final(self).states() == old(self).states(),
            final(self).devices() == old(self).devices(),
            final(self).registered() == old(self).registered(),
    {
        let (device_id, _) = match self.parse_device_spec(spec) {
            Ok(p) => p,
            Err(e) => return Err(e),
        };
        if let Some(device) = self.device_manager.get_device(device_id) {
            if self.protocol_factory.get_device(device_id).is_some() {
                Ok(Some((device_id, device)))
            } else {
                Ok(None)
            }
        } else {
            Ok(None)
        }
    }

    fn get_device(&mut self, device_id: usize) -> (r: Option<&mut DeviceState>) {
        self.device_manager.get_device(device_id)
    }

    /// Disconnects and drops the unit's device, then clears the unit's settings.
    fn close_device(&mut self, device_id: usize) -> (r: DeviceResult<bool>)
        ensures
            close_effect(*old(self), *final(self), device_id, r),
    {
        match self.protocol_factory.close_device(device_id) {
            Ok(()) => {},
            Err(e) => return Err(e),
        }
        if let Some(device) = self.device_manager.get_device(device_id) {
            device.url = None;
            device.mode = 0;
            device.trans = 0;
            Ok(true)
        } else {
            Ok(false)
        }
    }

    fn get_network_device(&mut self, device_id: usize) -> (r: Option<&mut Box<dyn NetworkDevice>>) {
        self.protocol_factory.get_device(device_id)
    }
}

} // verus!

verus! {

/// A unit that `open_device` opened successfully is found by the same spec: the
/// unit has a device afterwards.
pub proof fn law_opened_unit_is_found(
    before: NetworkManagerImpl,
    after: NetworkManagerImpl,
    spec: Seq<char>,
    mode: u8,
    trans: u8,
)
    requires
        open_effect(before, after, spec, mode, trans, Ok(())),
    ensures
        parse_device_spec_model(spec) is Ok,
        find_outcome(after.devices(), spec) == Ok::<Option<usize>, DeviceError>(
            Some(parse_device_spec_model(spec)->Ok_0.0),
        ),
{
}

/// Once `close_device` has closed a unit, no spec that names the unit finds a
/// device.
pub proof fn law_closed_unit_is_not_found(
    before: NetworkManagerImpl,
    after: NetworkManagerImpl,
    device_id: usize,
    closed: bool,
    spec: Seq<char>,
)
    requires
        close_effect(before, after, device_id, Ok(closed)),
        parse_device_spec_model(spec) matches Ok((id, _)) && id == device_id,
    ensures
        find_outcome(after.devices(), spec) == Ok::<Option<usize>, DeviceError>(None),
{
}

} // verus!

verus! {

/// After a successful open of `spec` with `mode` and `trans`, finding `spec` gives
/// back the unit the spec names with exactly what the open recorded: the spec's
/// URL, the mode and the translation.
pub proof fn law_find_after_open(
    before: NetworkManagerImpl,
    after: NetworkManagerImpl,
    spec: Seq<char>,
    mode: u8,
    trans: u8,
    id: usize,
    state: DeviceState,
)
    requires
        open_effect(before, after, spec, mode, trans, Ok(())),
        found_state(after, spec, id, state),
    ensures
        parse_device_spec_model(spec) matches Ok((unit, url)) && id == unit
            && url_opt_view(state.url) == Some(url),
        state.mode == mode,
        state.trans == trans,
{
}

} // verus!
