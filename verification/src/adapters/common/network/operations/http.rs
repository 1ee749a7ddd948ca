use vstd::prelude::*;

use crate::adapters::common::error::AdapterError;
use crate::device::{DeviceError, DeviceResult};
use crate::device::network::manager::NetworkManager;
use crate::device::network::protocols::ProtocolHandler;
use crate::device::network::url::same_base;
use crate::device::network::protocols::http::HttpMethod;
use crate::device::network::protocols::http_client::request_of;
use super::context::OperationsContext;
use super::types::{HttpGetRequest, HttpPostRequest};

verus! {

/// The model of a handler's reply: `None` when the handler is not an HTTP handler.
pub open spec fn reply_view(reply: Option<DeviceResult<Vec<u8>>>) -> Option<DeviceResult<Seq<u8>>> {
    match reply {
        None => None,
        Some(Ok(body)) => Some(Ok(body@)),
        Some(Err(e)) => Some(Err(e)),
    }
}

/// What a POST reports for the handler's reply; the response body is dropped.
pub open spec fn post_outcome(reply: Option<DeviceResult<Seq<u8>>>) -> Result<(), AdapterError> {
    match reply {
        None => Err(AdapterError::DeviceError(DeviceError::UnsupportedProtocol)),
        Some(Ok(_)) => Ok(()),
        Some(Err(e)) => Err(AdapterError::DeviceError(e)),
    }
}

/// The number of response bytes that fit in a buffer of `capacity` bytes.
pub open spec fn copied_len(capacity: nat, response: nat) -> nat {
    if response < capacity {
        response
    } else {
        capacity
    }
}

/// What a GET reports for the handler's reply, and what the buffer then holds: as
/// many response bytes as fit, in front of the buffer's remaining old bytes.
pub open spec fn get_outcome(buffer: Seq<u8>, reply: Option<DeviceResult<Seq<u8>>>) -> (Result<usize, AdapterError>, Seq<u8>) {
    match reply {
        None => (Err(AdapterError::DeviceError(DeviceError::UnsupportedProtocol)), buffer),
        Some(Err(e)) => (Err(AdapterError::DeviceError(e)), buffer),
        Some(Ok(response)) => {
            let n = copied_len(buffer.len(), response.len());
            (Ok(n as usize), response.take(n as int) + buffer.skip(n as int))
        },
    }
}

/// The POST's answer to the handler's reply.
pub fn finish_post(reply: Option<DeviceResult<Vec<u8>>>) -> (r: Result<(), AdapterError>)
    ensures
        r == post_outcome(reply_view(reply)),
{
    match reply {
        None => Err(AdapterError::DeviceError(DeviceError::UnsupportedProtocol)),
        Some(Ok(_)) => Ok(()),
        Some(Err(e)) => Err(AdapterError::DeviceError(e)),
    }
}

/// Copies as much of `response` as fits to the front of `buffer`; returns how much.
pub fn copy_response(buffer: &mut Vec<u8>, response: &[u8]) -> (n: usize)
    ensures
        n == copied_len(old(buffer)@.len(), response@.len()),
        final(buffer)@ == response@.take(n as int) + old(buffer)@.skip(n as int),
{
    let n: usize = if response.len() < buffer.len() {
        response.len()
    } else {
        buffer.len()
    };
    let mut i: usize = 0;
    while i < n
        invariant
            n == copied_len(old(buffer)@.len(), response@.len()),
            i <= n,
            buffer@ == response@.take(i as int) + old(buffer)@.skip(i as int),
        decreases n - i,
    {
        buffer.set(i, response[i]);
        i += 1;
        assert(buffer@ =~= response@.take(i as int) + old(buffer)@.skip(i as int));
    }
    n
}

/// The GET's answer to the handler's reply, filling `buffer` from a response.
pub fn finish_get(buffer: &mut Vec<u8>, reply: Option<DeviceResult<Vec<u8>>>) -> (r: Result<usize, AdapterError>)
    ensures
        (r, final(buffer)@) == get_outcome(old(buffer)@, reply_view(reply)),
{
    match reply {
        None => Err(AdapterError::DeviceError(DeviceError::UnsupportedProtocol)),
        Some(Err(e)) => Err(AdapterError::DeviceError(e)),
        Some(Ok(response)) => Ok(copy_response(buffer, response.as_slice())),
    }
}

/// The unit a POST goes to: the request's own index, or else the one its spec
/// parses to; `None` when the spec does not parse.
pub open spec fn post_target<M: NetworkManager>(manager: M, request: HttpPostRequest) -> Option<usize> {
    match request.device_id {
        Some(id) => Some(id),
        None => match manager.spec_parse(request.device_spec@) {
            Ok((id, _)) => Some(id),
            Err(_) => None,
        },
    }
}

impl<M: NetworkManager> OperationsContext<M> {
    /// POSTs the request's data through the unit's HTTP handler, to the URL it was
    /// opened with. The unit is the request's index when it has one; otherwise its
    /// spec is parsed (`InvalidDeviceSpec` when that fails). A unit without a
    /// device is `InvalidUrl`; a device whose handler is not an HTTP handler is
    /// `UnsupportedProtocol`; otherwise the handler's answer decides.
    pub fn http_post(&mut self, request: HttpPostRequest) -> (r: Result<(), AdapterError>)
        requires
            request.device_id matches Some(id) ==> M::spec_unit_in_range(id),
        ensures
            match post_target(old(self).manager(), request) {
                None => r == Err::<(), AdapterError>(AdapterError::InvalidDeviceSpec)
                    && final(self).manager() == old(self).manager(),
                Some(id) => if old(self).manager().spec_has_network_device(id) {
                    match old(self).manager().spec_sent(id) {
                        None => r == Err::<(), AdapterError>(AdapterError::DeviceError(DeviceError::UnsupportedProtocol)),
                        Some(log) => final(self).manager().spec_sent(id) == Some(
                            log.push(request_of(HttpMethod::Post, Seq::empty(), request.data@)),
                        ) && final(self).manager().spec_last_reply(id) is Some
                            && r == post_outcome(final(self).manager().spec_last_reply(id)),
                    }
                } else {
                    r == Err::<(), AdapterError>(AdapterError::DeviceError(DeviceError::InvalidUrl))
                },
            },
    {
        let device_id = match request.device_id {
            Some(id) => id,
            None => match self.manager.parse_device_spec(request.device_spec.as_str()) {
                Ok((id, _)) => id,
                Err(_) => return Err(AdapterError::InvalidDeviceSpec),
            },
        };
        match self.manager.get_network_device(device_id) {
            Some(device) => {
                let protocol = device.protocol_handler();
                let empty = "";
                proof {
                    reveal_strlit("");
                    assert(empty@ =~= Seq::<char>::empty());
                }
                let reply = match protocol.as_http_mut() {
                    Some(http) => Some(http.post(empty, request.data.as_slice())),
                    None => None,
                };
                finish_post(reply)
            },
            None => Err(AdapterError::DeviceError(DeviceError::InvalidUrl)),
        }
    }

    /// GETs through the unit's HTTP handler into the request's buffer and returns
    /// how many bytes were copied. The spec must parse (`InvalidDeviceSpec`), and the
    /// request then records the unit's index; the unit must exist (`InvalidUrl`), be
    /// open (`NotReady`), have been opened with a URL of the same scheme, host and
    /// port (`InvalidUrl`) and have a device (`InvalidUrl`); a device whose handler
    /// is not an HTTP handler is `UnsupportedProtocol`; otherwise the handler's
    /// answer decides.
    pub fn http_get(&mut self, request: &mut HttpGetRequest) -> (r: Result<usize, AdapterError>)
        ensures
            final(request).device_spec == old(request).device_spec,
            match old(self).manager().spec_parse(old(request).device_spec@) {
                Err(_) => r == Err::<usize, AdapterError>(AdapterError::InvalidDeviceSpec)
                    && final(request).device_id == old(request).device_id
                    && final(request).buffer@ == old(request).buffer@,
                Ok((id, url)) => final(request).device_id == Some(id) && match old(self).manager().spec_unit_url(id) {
                    None => r == Err::<usize, AdapterError>(AdapterError::DeviceError(DeviceError::InvalidUrl))
                        && final(request).buffer@ == old(request).buffer@,
                    Some(None) => r == Err::<usize, AdapterError>(AdapterError::DeviceError(DeviceError::NotReady))
                        && final(request).buffer@ == old(request).buffer@,
                    Some(Some(stored)) => if !same_base(url, stored) || !old(self).manager().spec_has_network_device(id) {
                        r == Err::<usize, AdapterError>(AdapterError::DeviceError(DeviceError::InvalidUrl))
                            && final(request).buffer@ == old(request).buffer@
                    } else {
                        match old(self).manager().spec_sent(id) {
                            None => r == Err::<usize, AdapterError>(
                                AdapterError::DeviceError(DeviceError::UnsupportedProtocol),
                            ) && final(request).buffer@ == old(request).buffer@,
                            Some(log) => final(self).manager().spec_sent(id) == Some(
                                log.push(request_of(HttpMethod::Get, Seq::empty(), Seq::empty())),
                            ) && final(self).manager().spec_last_reply(id) is Some
                                && (r, final(request).buffer@) == get_outcome(
                                old(request).buffer@,
                                final(self).manager().spec_last_reply(id),
                            ),
                        }
                    },
                },
            },
    {
        let (device_id, url) = match self.manager.parse_device_spec(request.device_spec.as_str()) {
            Ok(p) => p,
            Err(_) => return Err(AdapterError::InvalidDeviceSpec),
        };
        request.device_id = Some(device_id);
        let device_state = match self.manager.get_device(device_id) {
            Some(d) => d,
            None => return Err(AdapterError::DeviceError(DeviceError::InvalidUrl)),
        };
        let stored_url = match &device_state.url {
            Some(u) => u,
            None => return Err(AdapterError::DeviceError(DeviceError::NotReady)),
        };
        if !url.has_same_base_url(stored_url) {
            return Err(AdapterError::DeviceError(DeviceError::InvalidUrl));
        }
        match self.manager.get_network_device(device_id) {
            Some(device) => {
                let protocol = device.protocol_handler();
                let empty = "";
                proof {
                    reveal_strlit("");
                    assert(empty@ =~= Seq::<char>::empty());
                }
                let reply = match protocol.as_http_mut() {
                    Some(http) => Some(http.get(empty)),
                    None => None,
                };
                finish_get(&mut request.buffer, reply)
            },
            None => Err(AdapterError::DeviceError(DeviceError::InvalidUrl)),
        }
    }
}

} // verus!
