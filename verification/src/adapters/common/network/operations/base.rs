use vstd::prelude::*;

use crate::adapters::common::error::AdapterError;
use crate::device::{DeviceError, DeviceResult};
use crate::device::network::manager::{close_effect, open_effect, parse_device_spec_model, NetworkManager, NetworkManagerImpl};
use crate::device::network::url::{str_eq, NetworkUrlModel};
use super::context::OperationsContext;
use super::types::DeviceOpenRequest;

verus! {

/// What checking `spec` against the URL a unit was opened with yields, given what
/// the spec parses to and what the unit records.
pub open spec fn validation_outcome(
    parsed: Result<(usize, NetworkUrlModel), DeviceError>,
    unit: Option<Option<NetworkUrlModel>>,
) -> Result<usize, AdapterError> {
    match parsed {
        Err(_) => Err(AdapterError::InvalidDeviceSpec),
        Ok((id, url)) => match unit {
            None => Err(AdapterError::DeviceError(DeviceError::InvalidUrl)),
            Some(None) => Err(AdapterError::DeviceError(DeviceError::NotReady)),
            Some(Some(stored)) => if url.url == stored.url {
                Ok(id)
            } else {
                Err(AdapterError::DeviceError(DeviceError::InvalidUrl))
            },
        },
    }
}

/// What opening the device spec `spec` through `manager` reports.
pub open spec fn open_outcome<M: NetworkManager>(manager: M, spec: Seq<char>) -> Result<usize, AdapterError> {
    match manager.spec_parse(spec) {
        Err(_) => Err(AdapterError::InvalidDeviceSpec),
        Ok((id, _)) => match manager.spec_open(spec) {
            Ok(()) => Ok(id),
            Err(e) => Err(AdapterError::DeviceError(e)),
        },
    }
}

/// What checking `spec` against the URL its unit was opened with reports, for
/// `manager`.
pub open spec fn validate_outcome<M: NetworkManager>(manager: M, spec: Seq<char>) -> Result<usize, AdapterError> {
    validation_outcome(
        manager.spec_parse(spec),
        match manager.spec_parse(spec) {
            Ok((id, _)) => manager.spec_unit_url(id),
            Err(_) => None,
        },
    )
}

/// Whether `r` is the adapter's answer to a close that reported `closed`: `Ok`
/// when the unit was closed, an I/O error "Failed to close device" when it was
/// not, the device's own error when the close failed.
pub open spec fn is_close_outcome(closed: DeviceResult<bool>, r: Result<(), AdapterError>) -> bool {
    match closed {
        Ok(true) => r is Ok,
        Ok(false) => r matches Err(AdapterError::DeviceError(DeviceError::IoError(m))) && m@ == "Failed to close device"@,
        Err(e) => r == Err::<(), AdapterError>(AdapterError::DeviceError(e)),
    }
}

/// Maps the outcome of a close to the adapter's answer.
pub fn close_result(closed: DeviceResult<bool>) -> (r: Result<(), AdapterError>)
    ensures
        is_close_outcome(closed, r),
{
    match closed {
        Ok(true) => Ok(()),
        Ok(false) => Err(AdapterError::DeviceError(DeviceError::IoError(String::from_str("Failed to close device")))),
        Err(e) => Err(AdapterError::DeviceError(e)),
    }
}

impl<M: NetworkManager> OperationsContext<M> {
    /// Opens a network device and returns the unit's index. A spec that does not
    /// parse is `InvalidDeviceSpec`; an open that fails gives its error.
    pub fn open_device(&mut self, request: DeviceOpenRequest) -> (r: Result<usize, AdapterError>)
        ensures
            r == open_outcome(old(self).manager(), request.device_spec@),
            old(self).manager().spec_parse(request.device_spec@) is Err ==> final(self).manager() == old(self).manager(),
            old(self).manager().spec_parse(request.device_spec@) is Ok ==> old(self).manager().spec_open_effect(
                &final(self).manager(),
                request.device_spec@,
                request.mode,
                request.translation,
                old(self).manager().spec_open(request.device_spec@),
            ),
    {
        let (device_id, _url) = match self.manager.parse_device_spec(request.device_spec.as_str()) {
            Ok(p) => p,
            Err(_) => return Err(AdapterError::InvalidDeviceSpec),
        };
        match self.manager.open_device(request.device_spec.as_str(), request.mode, request.translation) {
            Ok(()) => Ok(device_id),
            Err(e) => Err(AdapterError::from(e)),
        }
    }

    /// The unit index that `spec` parses to; `InvalidDeviceSpec` when it does not parse.
    pub fn parse_device_spec(&self, spec: &str) -> (r: Result<usize, AdapterError>)
        ensures
            match self.manager().spec_parse(spec@) {
                Ok((id, _)) => r == Ok::<usize, AdapterError>(id),
                Err(_) => r == Err::<usize, AdapterError>(AdapterError::InvalidDeviceSpec),
            },
            r matches Ok(id) ==> M::spec_unit_in_range(id),
    {
        match self.manager.parse_device_spec(spec) {
            Ok((id, _)) => Ok(id),
            Err(_) => Err(AdapterError::InvalidDeviceSpec),
        }
    }

    /// Closes unit `device_id`; a unit that was not closed is an I/O error.
    pub fn close_device(&mut self, device_id: usize) -> (r: Result<(), AdapterError>)
        requires
            M::spec_unit_in_range(device_id),
        ensures
            exists|closed: DeviceResult<bool>|
                #[trigger] is_close_outcome(closed, r) && old(self).manager().spec_close_effect(
                    &final(self).manager(),
                    device_id,
                    closed,
                ),
    {
        let closed = self.manager.close_device(device_id);
        let ghost c = closed;
        let r = close_result(closed);
        assert(is_close_outcome(c, r));
        r
    }

    /// Checks that `spec` names a unit that was opened with exactly the URL that
    /// `spec` holds, and returns the unit's index.
    pub fn validate_device_spec(&mut self, spec: &str) -> (r: Result<usize, AdapterError>)
        ensures
            r == validate_outcome(old(self).manager(), spec@),
            forall|s: Seq<char>| #[trigger] final(self).manager().spec_parse(s) == old(self).manager().spec_parse(s),
            forall|i: usize| #[trigger] final(self).manager().spec_has_network_device(i)
                == old(self).manager().spec_has_network_device(i),
            forall|i: usize| #[trigger] final(self).manager().spec_unit_url(i) == old(self).manager().spec_unit_url(i),
            forall|i: usize| #[trigger] final(self).manager().spec_sent(i) == old(self).manager().spec_sent(i),
            forall|i: usize| #[trigger] final(self).manager().spec_last_reply(i) == old(self).manager().spec_last_reply(i),
    {
        let (id, url) = match self.manager.parse_device_spec(spec) {
            Ok(p) => p,
            Err(_) => return Err(AdapterError::InvalidDeviceSpec),
        };
        let device_state = match self.manager.get_device(id) {
            Some(d) => d,
            None => return Err(AdapterError::DeviceError(DeviceError::InvalidUrl)),
        };
        let stored_url = match &device_state.url {
            Some(u) => u,
            None => return Err(AdapterError::DeviceError(DeviceError::NotReady)),
        };
        if !str_eq(url.url.as_str(), stored_url.url.as_str()) {
            return Err(AdapterError::DeviceError(DeviceError::InvalidUrl));
        }
        Ok(id)
    }
}

/// What `validate_device_spec` reads back after `open_device` opened a spec
/// successfully is the unit that was opened: the URL it recorded is the spec's.
pub proof fn law_open_then_validate(
    before: NetworkManagerImpl,
    after: NetworkManagerImpl,
    spec: Seq<char>,
    mode: u8,
    trans: u8,
)
    requires
        open_effect(before, after, spec, mode, trans, Ok(())),
    ensures
        parse_device_spec_model(spec) is Ok,
        validate_outcome(after, spec) == Ok::<usize, AdapterError>(parse_device_spec_model(spec)->Ok_0.0),
{
}

/// Once `close_device` has closed a unit, a spec that names the unit no longer
/// validates: the unit is not ready.
pub proof fn law_close_then_validate(
    before: NetworkManagerImpl,
    after: NetworkManagerImpl,
    device_id: usize,
    spec: Seq<char>,
)
    requires
        close_effect(before, after, device_id, Ok(true)),
        parse_device_spec_model(spec) matches Ok((id, _)) && id == device_id,
    ensures
        validate_outcome(after, spec) == Err::<usize, AdapterError>(AdapterError::DeviceError(DeviceError::NotReady)),
{
}

/// Through the request operations: once a context's `open_device` has opened
/// `spec` (its result is `Ok`, and its manager changed as the open changes it),
/// the context's `validate_device_spec(spec)` gives back the unit that was opened.
pub proof fn law_context_open_then_validate(
    before: NetworkManagerImpl,
    after: NetworkManagerImpl,
    spec: Seq<char>,
    mode: u8,
    trans: u8,
)
    requires
        open_outcome(before, spec) is Ok,
        before.spec_open_effect(&after, spec, mode, trans, before.spec_open(spec)),
    ensures
        validate_outcome(after, spec) == open_outcome(before, spec),
{
    law_open_then_validate(before, after, spec, mode, trans);
}

} // verus!
