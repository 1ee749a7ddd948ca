use vstd::prelude::*;

use crate::device::{DeviceError, DeviceResult};
use super::{ConnectionStatus, ProtocolHandler};

verus! {

/// Supported network protocols.
#[derive(Debug, Clone, Copy, Eq, PartialEq, Hash, Structural)]
pub enum NetworkProtocol {
    /// HTTP and HTTPS.
    Http,
    /// Raw TCP.
    Tcp,
}

/// The character code of `c` with ASCII upper-case letters folded to lower case.
pub open spec fn lower_code(c: char) -> int {
    if 65 <= c as int && c as int <= 90 {
        c as int + 32
    } else {
        c as int
    }
}

/// `a` and `b` are equal when ASCII letters are compared without regard to case.
pub open spec fn eq_ignore_ascii_case(a: Seq<char>, b: Seq<char>) -> bool {
    &&& a.len() == b.len()
    &&& forall|i: int| 0 <= i < a.len() ==> #[trigger] lower_code(a[i]) == lower_code(b[i])
}

/// The scheme name "http".
pub open spec fn http_name() -> Seq<char> {
    seq!['h', 't', 't', 'p']
}

/// The scheme name "https".
pub open spec fn https_name() -> Seq<char> {
    seq!['h', 't', 't', 'p', 's']
}

/// The scheme name "tcp".
pub open spec fn tcp_name() -> Seq<char> {
    seq!['t', 'c', 'p']
}

/// The protocol that a scheme name denotes, compared without regard to ASCII case.
pub open spec fn protocol_named(name: Seq<char>) -> Option<NetworkProtocol> {
    if eq_ignore_ascii_case(name, http_name()) || eq_ignore_ascii_case(name, https_name()) {
        Some(NetworkProtocol::Http)
    } else if eq_ignore_ascii_case(name, tcp_name()) {
        Some(NetworkProtocol::Tcp)
    } else {
        None
    }
}

fn lower_code_of(c: char) -> (r: u32)
    ensures
        r as int == lower_code(c),
{
    let code = c as u32;
    if 65 <= code && code <= 90 {
        code + 32
    } else {
        code
    }
}

/// Compares `s` with `name` without regard to ASCII case.
fn matches_name(s: &str, name: &[char]) -> (r: bool)
    ensures
        r == eq_ignore_ascii_case(s@, name@),
{
    let n = s.unicode_len();
    if n != name.len() {
        return false;
    }
    let mut i: usize = 0;
    while i < n
        invariant
            n == s@.len(),
            n == name@.len(),
            i <= n,
            forall|j: int| 0 <= j < i ==> #[trigger] lower_code(s@[j]) == lower_code(name@[j]),
        decreases n - i,
    {
        if lower_code_of(s.get_char(i)) != lower_code_of(name[i]) {
            return false;
        }
        i += 1;
    }
    true
}

impl NetworkProtocol {
    /// The protocol named by `s` ("http", "https" or "tcp", in any ASCII case).
    pub fn from_str(s: &str) -> (r: Option<Self>)
        ensures
            r == protocol_named(s@),
    {
        let http: [char; 4] = ['h', 't', 't', 'p'];
        let https: [char; 5] = ['h', 't', 't', 'p', 's'];
        let tcp: [char; 3] = ['t', 'c', 'p'];
        assert(http@ =~= http_name());
        assert(https@ =~= https_name());
        assert(tcp@ =~= tcp_name());
        if matches_name(s, &http) || matches_name(s, &https) {
            Some(NetworkProtocol::Http)
        } else if matches_name(s, &tcp) {
            Some(NetworkProtocol::Tcp)
        } else {
            None
        }
    }
}

/// Whether `protocol_str` names a protocol the C interface supports: HTTP only,
/// named "http" or "https" in any ASCII case.
pub fn is_protocol_supported(protocol_str: &str) -> (r: bool)
    ensures
        r == (protocol_named(protocol_str@) == Some(NetworkProtocol::Http)),
{
    match NetworkProtocol::from_str(protocol_str) {
        Some(NetworkProtocol::Http) => true,
        _ => false,
    }
}

/// An owned protocol handler of any implementation.
pub struct BoxedProtocolHandler(pub Box<dyn ProtocolHandler>);

/// Creates protocol handlers of one kind.
///
/// Its spec functions are left unspecified for an implementation that does not
/// define them.
pub trait ProtocolHandlerFactory {
    /// The status that each handler this factory creates starts with.
    closed spec fn new_handler_status(&self) -> DeviceResult<ConnectionStatus> {
        arbitrary()
    }

    /// Whether the handlers this factory creates are HTTP handlers.
    closed spec fn creates_http(&self) -> bool {
        arbitrary()
    }

    /// Creates a new protocol handler.
    fn create_handler(&self) -> (r: BoxedProtocolHandler)
        ensures
            r.0.status_spec() == self.new_handler_status(),
            r.0.http_sent() is Some == self.creates_http();
}

/// Maps each registered protocol to the factory that creates its handlers.
pub struct ProtocolRegistry {
    http: Option<Box<dyn ProtocolHandlerFactory>>,
    tcp: Option<Box<dyn ProtocolHandlerFactory>>,
}

impl ProtocolRegistry {
    /// The protocols that have a factory.
    pub closed spec fn registered(&self) -> Set<NetworkProtocol> {
        Set::new(
            |p: NetworkProtocol|
                match p {
                    NetworkProtocol::Http => self.http is Some,
                    NetworkProtocol::Tcp => self.tcp is Some,
                },
        )
    }

    /// The factory registered for `protocol`, if any.
    pub closed spec fn factory_for(&self, protocol: NetworkProtocol) -> Option<Box<dyn ProtocolHandlerFactory>> {
        match protocol {
            NetworkProtocol::Http => self.http,
            NetworkProtocol::Tcp => self.tcp,
        }
    }

    /// An empty registry.
    pub fn new() -> (r: Self)
        ensures
            r.registered() == Set::<NetworkProtocol>::empty(),
    {
        let r = ProtocolRegistry { http: None, tcp: None };
        assert(r.registered() =~= Set::<NetworkProtocol>::empty());
        r
    }

    /// Registers `factory` for `protocol`, replacing any factory registered for it before.
    pub fn register(&mut self, protocol: NetworkProtocol, factory: Box<dyn ProtocolHandlerFactory>)
        ensures
            final(self).registered() == old(self).registered().insert(protocol),
            final(self).factory_for(protocol) == Some(factory),
            forall|p: NetworkProtocol| p != protocol ==> #[trigger] final(self).factory_for(p) == old(self).factory_for(p),
    {
        let mut given = Some(factory);
        match protocol {
            NetworkProtocol::Http => std::mem::swap(&mut self.http, &mut given),
            NetworkProtocol::Tcp => std::mem::swap(&mut self.tcp, &mut given),
        }
        assert(self.registered() =~= old(self).registered().insert(protocol));
    }

    /// Creates a handler for `protocol` with its registered factory;
    /// `UnsupportedProtocol` when no factory is registered for it.
    pub fn create_handler(&self, protocol: NetworkProtocol) -> (r: DeviceResult<Box<dyn ProtocolHandler>>)
        ensures
            r is Ok == self.registered().contains(protocol),
            r matches Err(e) ==> e == DeviceError::UnsupportedProtocol,
            r matches Ok(h) ==> self.factory_for(protocol) matches Some(f)
                && h.status_spec() == f.new_handler_status()
                && (h.http_sent() is Some == f.creates_http()),
    {
        let slot = match protocol {
            NetworkProtocol::Http => &self.http,
            NetworkProtocol::Tcp => &self.tcp,
        };
        match slot {
            Some(factory) => {
                let made = factory.create_handler();
                let res = Ok(made.0);
                res
            },
            None => Err(DeviceError::UnsupportedProtocol),
        }
    }

    /// Whether a factory is registered for `protocol`.
    pub fn supports_protocol(&self, protocol: &NetworkProtocol) -> (r: bool)
        ensures
            r == self.registered().contains(*protocol),
    {
        match protocol {
            NetworkProtocol::Http => self.http.is_some(),
            NetworkProtocol::Tcp => self.tcp.is_some(),
        }
    }

    /// The registered protocols, each once.
    pub fn supported_protocols(&self) -> (r: Vec<NetworkProtocol>)
        ensures
            r@.to_set() == self.registered(),
            r@.no_duplicates(),
    {
        let mut out: Vec<NetworkProtocol> = Vec::new();
        if self.http.is_some() {
            out.push(NetworkProtocol::Http);
        }
        if self.tcp.is_some() {
            out.push(NetworkProtocol::Tcp);
        }
        assert forall|p: NetworkProtocol| #[trigger] out@.to_set().contains(p) == self.registered().contains(p) by {
            if self.registered().contains(p) {
                match p {
                    NetworkProtocol::Http => assert(out@[0] == p),
                    NetworkProtocol::Tcp => assert(out@[out@.len() - 1] == p),
                }
            }
        }
        assert(out@.to_set() =~= self.registered());
        out
    }
}

impl Default for ProtocolRegistry {
    fn default() -> (r: Self)
        ensures
            r.registered() == Set::<NetworkProtocol>::empty(),
    {
        Self::new()
    }
}


/// A protocol that was registered is supported from then on, and registering one
/// protocol keeps every other protocol's support as it was.
pub proof fn law_registered_is_supported(
    before: Set<NetworkProtocol>,
    after: Set<NetworkProtocol>,
    protocol: NetworkProtocol,
    other: NetworkProtocol,
)
    requires
        after == before.insert(protocol),
    ensures
        after.contains(protocol),
        other != protocol ==> (after.contains(other) == before.contains(other)),
{
}

} // verus!
