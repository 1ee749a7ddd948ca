use vstd::prelude::*;

use crate::device::{DeviceError, DeviceResult};
use super::HttpProtocol;
use super::http_client::SentRequest;

verus! {

/// A connection-oriented protocol that a network device speaks.
///
/// Its spec functions are left unspecified for an implementation that does not
/// define them.
pub trait ProtocolHandler {
    /// What `status` reports in this state.
    closed spec fn status_spec(&self) -> DeviceResult<ConnectionStatus> {
        arbitrary()
    }

    /// For an HTTP handler, the requests its client has sent so far; `None` for a
    /// handler that is not an HTTP handler.
    closed spec fn http_sent(&self) -> Option<Seq<SentRequest>> {
        arbitrary()
    }

    /// For an HTTP handler, its client's answer to the last request, once there
    /// has been one.
    closed spec fn http_last_reply(&self) -> Option<DeviceResult<Seq<u8>>> {
        arbitrary()
    }

    /// What the last open or close returned, once there has been one.
    closed spec fn last_outcome(&self) -> Option<DeviceResult<()>> {
        arbitrary()
    }

    /// The endpoint the handler was last opened on, if any.
    closed spec fn opened_endpoint(&self) -> Option<Seq<char>> {
        arbitrary()
    }

    /// What `status` reports after an open from this state that returned `r`.
    closed spec fn status_after_open(&self, r: DeviceResult<()>) -> DeviceResult<ConnectionStatus> {
        arbitrary()
    }

    /// What `status` reports after a close from this state that returned `r`.
    closed spec fn status_after_close(&self, r: DeviceResult<()>) -> DeviceResult<ConnectionStatus> {
        arbitrary()
    }

    /// Opens a connection to the endpoint, so that a successful open leaves the
    /// handler connected; no HTTP request is sent.
    fn open(&mut self, endpoint: &str) -> (r: DeviceResult<()>)
        ensures
            final(self).status_spec() == old(self).status_after_open(r),
            r is Ok ==> final(self).status_spec() == Ok::<ConnectionStatus, DeviceError>(ConnectionStatus::Connected),
            final(self).opened_endpoint() == Some(endpoint@),
            final(self).last_outcome() == Some(r),
            final(self).http_sent() == old(self).http_sent();

    /// Closes the connection, so that a successful close leaves the handler
    /// disconnected; no HTTP request is sent.
    fn close(&mut self) -> (r: DeviceResult<()>)
        ensures
            final(self).status_spec() == old(self).status_after_close(r),
            r is Ok ==> final(self).status_spec() == Ok::<ConnectionStatus, DeviceError>(ConnectionStatus::Disconnected),
            final(self).last_outcome() == Some(r),
            final(self).http_sent() == old(self).http_sent();

    /// Reads data from the connection; returns the number of bytes read.
    fn read(&mut self, buf: &mut [u8]) -> DeviceResult<usize>;

    /// Writes data to the connection; returns the number of bytes written.
    fn write(&mut self, buf: &[u8]) -> DeviceResult<usize>;

    /// The current status of the connection.
    fn status(&self) -> (r: DeviceResult<ConnectionStatus>)
        ensures
            r == self.status_spec();

    /// The number of bytes available to read.
    fn available(&self) -> DeviceResult<usize>;

    /// This handler as an HTTP handler, exactly when it is one; what is done to the
    /// HTTP handler is done to this handler.
    fn as_http_mut(&mut self) -> (r: Option<&mut HttpProtocol>)
        ensures
            r is Some <==> old(self).http_sent() is Some,
            r matches Some(h) ==> old(self).http_sent() == Some(h.sent())
                && final(self).http_sent() == Some(final(h).sent())
                && final(self).http_last_reply() == final(h).last_reply();
}

/// State of a protocol connection.
#[derive(Debug, PartialEq)]
pub enum ConnectionStatus {
    Disconnected,
    Connecting,
    Connected,
    Error(DeviceError),
}

impl Default for ConnectionStatus {
    fn default() -> (r: Self)
        ensures
            r == ConnectionStatus::Disconnected,
    {
        ConnectionStatus::Disconnected
    }
}

impl Clone for ConnectionStatus {
    fn clone(&self) -> (r: Self)
        ensures
            r == *self,
    {
        match self {
            ConnectionStatus::Disconnected => ConnectionStatus::Disconnected,
            ConnectionStatus::Connecting => ConnectionStatus::Connecting,
            ConnectionStatus::Connected => ConnectionStatus::Connected,
            ConnectionStatus::Error(e) => ConnectionStatus::Error(e.clone()),
        }
    }
}

} // verus!
