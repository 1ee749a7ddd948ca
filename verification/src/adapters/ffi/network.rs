use vstd::prelude::*;

use crate::adapters::common::error::AdapterError;
use crate::adapters::common::network::operations::base::{is_close_outcome, open_outcome, validate_outcome};
use crate::adapters::common::network::operations::http::{get_outcome, post_outcome};
use crate::adapters::common::network::operations::{DeviceOpenRequest, HttpGetRequest, HttpPostRequest, OperationsContext};
use crate::device::{DeviceError, DeviceResult};
use crate::device::network::manager::NetworkManager;
use crate::device::network::url::same_base;
use crate::device::network::protocols::http::HttpMethod;
use crate::device::network::protocols::http_client::request_of;
use super::error::{
    adapter_error_code, adapter_result_code, adapter_result_to_ffi, FN_ERR_BAD_CMD, FN_ERR_IO_ERROR,
    FN_ERR_NOT_INITIALIZED, FN_ERR_OK,
};

verus! {

/// The code a GET reports to its caller, with the bytes it hands back: the number
/// of bytes received and those bytes, or minus `FN_ERR_BAD_CMD` and nothing for any
/// failure.
pub open spec fn get_code(buffer: Seq<u8>, reply: Option<DeviceResult<Seq<u8>>>) -> (i16, Seq<u8>) {
    match get_outcome(buffer, reply) {
        (Ok(n), b) => (n as i16, b.take(n as int)),
        (Err(_), _) => ((-(FN_ERR_BAD_CMD as int)) as i16, Seq::empty()),
    }
}

/// `len` zero bytes.
pub open spec fn zeroed(len: nat) -> Seq<u8> {
    Seq::new(len, |i: int| 0u8)
}

/// The code a close reports for what the manager's close returned.
pub open spec fn close_code_of(closed: DeviceResult<bool>) -> u8 {
    match closed {
        Ok(true) => FN_ERR_OK,
        Ok(false) => FN_ERR_IO_ERROR,
        Err(e) => adapter_error_code(AdapterError::DeviceError(e)),
    }
}

/// Whether the context `after` is what opening `spec` with `mode` and `trans`
/// through `before` leaves: the manager unchanged when `spec` does not parse, else
/// changed as the manager's open changes it.
pub open spec fn open_leaves<M: NetworkManager>(
    before: OperationsContext<M>,
    after: Option<OperationsContext<M>>,
    spec: Seq<char>,
    mode: u8,
    trans: u8,
) -> bool {
    match after {
        None => false,
        Some(c) => if before.manager().spec_parse(spec) is Err {
            c.manager() == before.manager()
        } else {
            before.manager().spec_open_effect(&c.manager(), spec, mode, trans, before.manager().spec_open(spec))
        },
    }
}

/// Opens the device that `device_spec` names; `None` stands for a spec that could
/// not be read. Reports `FN_ERR_NOT_INITIALIZED` without a context, then
/// `FN_ERR_BAD_CMD` for an unreadable spec, with nothing opened, then the open's
/// own code.
pub fn open_code<M: NetworkManager>(
    ops: &mut Option<OperationsContext<M>>,
    device_spec: Option<String>,
    mode: u8,
    trans: u8,
) -> (r: u8)
    ensures
        match *old(ops) {
            None => r == FN_ERR_NOT_INITIALIZED && *final(ops) == *old(ops),
            Some(c) => match device_spec {
                None => r == FN_ERR_BAD_CMD && *final(ops) == *old(ops),
                Some(s) => r == adapter_result_code(open_outcome(c.manager(), s@))
                    && open_leaves(c, *final(ops), s@, mode, trans),
            },
        },
{
    let context = match ops {
        Some(c) => c,
        None => return FN_ERR_NOT_INITIALIZED,
    };
    let device_spec = match device_spec {
        Some(s) => s,
        None => return FN_ERR_BAD_CMD,
    };
    let request = DeviceOpenRequest { device_spec, mode, translation: trans };
    let result = context.open_device(request);
    adapter_result_to_ffi(result)
}

/// POSTs `data` to the device that `device_spec` names; `None` stands for text
/// that could not be read. Missing text or context, or a spec that does not parse,
/// is `FN_ERR_BAD_CMD`, and nothing is sent; otherwise the data is POSTed through
/// the unit's HTTP handler and the POST's code is reported.
pub fn http_post_code<M: NetworkManager>(
    ops: &mut Option<OperationsContext<M>>,
    device_spec: Option<String>,
    data: Option<Vec<u8>>,
) -> (r: u8)
    ensures
        match (*old(ops), device_spec, data) {
            (Some(c), Some(s), Some(d)) => match c.manager().spec_parse(s@) {
                Err(_) => r == FN_ERR_BAD_CMD && *final(ops) == *old(ops),
                Ok((id, _)) => if c.manager().spec_has_network_device(id) {
                    match c.manager().spec_sent(id) {
                        None => r == adapter_error_code(AdapterError::DeviceError(DeviceError::UnsupportedProtocol)),
                        Some(log) => *final(ops) matches Some(c2) && c2.manager().spec_sent(id) == Some(
                            log.push(request_of(HttpMethod::Post, Seq::empty(), d@)),
                        ) && c2.manager().spec_last_reply(id) is Some
                            && r == adapter_result_code(post_outcome(c2.manager().spec_last_reply(id))),
                    }
                } else {
                    r == adapter_error_code(AdapterError::DeviceError(DeviceError::InvalidUrl))
                },
            },
            _ => r == FN_ERR_BAD_CMD && *final(ops) == *old(ops),
        },
{
    let (device_spec, data) = match (device_spec, data) {
        (Some(s), Some(d)) => (s, d),
        _ => return FN_ERR_BAD_CMD,
    };
    let context = match ops {
        Some(c) => c,
        None => return FN_ERR_BAD_CMD,
    };
    let device_id = match context.parse_device_spec(device_spec.as_str()) {
        Ok(id) => id,
        Err(_) => return FN_ERR_BAD_CMD,
    };
    let ghost before = context.manager();
    let mut request = HttpPostRequest::new(device_spec, data);
    request.device_id = Some(device_id);
    let result = context.http_post(request);
    match result {
        Ok(_) => FN_ERR_OK,
        Err(e) => adapter_result_to_ffi::<()>(Err(e)),
    }
}

/// GETs from the device that `device_spec` names into a zeroed buffer of `len`
/// bytes, and returns the code with the bytes received; `None` stands for a spec
/// that could not be read. A missing spec or context, a spec that does not match
/// what its unit was opened with, and a failed GET are minus `FN_ERR_BAD_CMD` with
/// no bytes; otherwise the unit's HTTP handler sends a GET and the code is the
/// number of bytes received.
pub fn http_get_code<M: NetworkManager>(
    ops: &mut Option<OperationsContext<M>>,
    device_spec: Option<String>,
    len: u16,
) -> (r: (i16, Vec<u8>))
    ensures
        r.1@.len() <= len,
        match (*old(ops), device_spec) {
            (Some(c), Some(s)) => match validate_outcome(c.manager(), s@) {
                Err(_) => r.0 == -(FN_ERR_BAD_CMD as i16) && r.1@.len() == 0,
                Ok(id) => {
                    let url = c.manager().spec_parse(s@)->Ok_0.1;
                    let stored = c.manager().spec_unit_url(id)->Some_0->Some_0;
                    if same_base(url, stored) && c.manager().spec_has_network_device(id) {
                        match c.manager().spec_sent(id) {
                            None => r.0 == -(FN_ERR_BAD_CMD as i16) && r.1@.len() == 0,
                            Some(log) => *final(ops) matches Some(c2) && c2.manager().spec_sent(id) == Some(
                                log.push(request_of(HttpMethod::Get, Seq::empty(), Seq::empty())),
                            ) && c2.manager().spec_last_reply(id) is Some
                                && (r.0, r.1@) == get_code(zeroed(len as nat), c2.manager().spec_last_reply(id)),
                        }
                    } else {
                        r.0 == -(FN_ERR_BAD_CMD as i16) && r.1@.len() == 0
                    }
                },
            },
            _ => r.0 == -(FN_ERR_BAD_CMD as i16) && r.1@.len() == 0 && *final(ops) == *old(ops),
        },
{
    let device_spec = match device_spec {
        Some(s) => s,
        None => return (-(FN_ERR_BAD_CMD as i16), Vec::new()),
    };
    let context = match ops {
        Some(c) => c,
        None => return (-(FN_ERR_BAD_CMD as i16), Vec::new()),
    };
    let device_id = match context.validate_device_spec(device_spec.as_str()) {
        Ok(id) => id,
        Err(_) => return (-(FN_ERR_BAD_CMD as i16), Vec::new()),
    };
    let buffer = vec![0u8; len as usize];
    let ghost zeros = buffer@;
    assert(zeros =~= zeroed(len as nat));
    let ghost before = context.manager();
    let mut request = HttpGetRequest::new(device_spec, buffer);
    request.device_id = Some(device_id);
    let result = context.http_get(&mut request);
    proof {
        if same_base(before.spec_parse(request.device_spec@)->Ok_0.1,
            before.spec_unit_url(device_id)->Some_0->Some_0)
            && before.spec_has_network_device(device_id) && before.spec_sent(device_id) is Some {
            let reply = context.manager().spec_last_reply(device_id);
            assert(match result {
                Ok(n) => get_code(zeros, reply) == (n as i16, request.buffer@.take(n as int)),
                Err(_) => get_code(zeros, reply) == ((-(FN_ERR_BAD_CMD as int)) as i16, Seq::<u8>::empty()),
            });
        }
    }
    match result {
        Ok(bytes_read) => {
            let mut received = request.buffer;
            received.truncate(bytes_read);
            (bytes_read as i16, received)
        },
        Err(_) => (-(FN_ERR_BAD_CMD as i16), Vec::new()),
    }
}

/// Closes unit `device_id`: `FN_ERR_NOT_INITIALIZED` without a context, otherwise
/// the code of what the manager's close reported.
pub fn close_code<M: NetworkManager>(ops: &mut Option<OperationsContext<M>>, device_id: u8) -> (r: u8)
    requires
        (*old(ops)) is Some ==> M::spec_unit_in_range(device_id as usize),
    ensures
        match *old(ops) {
            None => r == FN_ERR_NOT_INITIALIZED && *final(ops) == *old(ops),
            Some(c) => exists|closed: DeviceResult<bool>|
                r == #[trigger] close_code_of(closed) && (*final(ops) matches Some(c2)
                    && c.manager().spec_close_effect(&c2.manager(), device_id as usize, closed)),
        },
{
    let context = match ops {
        Some(c) => c,
        None => return FN_ERR_NOT_INITIALIZED,
    };
    let ghost before = context.manager();
    let result = context.close_device(device_id as usize);
    proof {
        let closed = choose|closed: DeviceResult<bool>|
            #[trigger] is_close_outcome(closed, result) && before.spec_close_effect(
                &context.manager(),
                device_id as usize,
                closed,
            );
        assert(adapter_result_code(result) == close_code_of(closed));
    }
    adapter_result_to_ffi(result)
}

} // verus!
