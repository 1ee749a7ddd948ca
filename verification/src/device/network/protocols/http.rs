use vstd::prelude::*;
use std::sync::Arc;

use crate::device::{DeviceError, DeviceResult};
use super::{ConnectionStatus, HeaderMap, HttpClient, HttpClientProvider, ProtocolHandler};
use super::http_client::{body_view, request_of, SentRequest};

verus! {

/// The request methods an HTTP protocol handler sends.
#[derive(Debug, Clone, Copy, PartialEq, Eq, Structural)]
pub enum HttpMethod {
    Get,
    Post,
    Put,
    Delete,
    Head,
    Patch,
}

/// What `c` contributes to the upper-case form of a string, as far as telling the
/// request methods apart goes. ASCII letters are upper-cased, and the long s, the
/// dotless i and the "st" ligatures become the ASCII letters they upper-case to.
/// Every other character upper-cases to itself, to text holding a character
/// outside ASCII, or to ASCII text such as "SS" or "FI" that occurs in no method
/// name; it is kept as it is, which keeps the result unequal to every method name
/// just as its upper-case form would.
pub open spec fn upper_chars(c: char) -> Seq<char> {
    if 97 <= c as int && c as int <= 122 {
        seq![(c as int - 32) as char]
    } else if c == '\u{17F}' {
        seq!['S']
    } else if c == '\u{131}' {
        seq!['I']
    } else if c == '\u{FB05}' || c == '\u{FB06}' {
        seq!['S', 'T']
    } else {
        seq![c]
    }
}

/// The upper-case form of `s`, as far as comparisons with method names can tell.
pub open spec fn upper_form(s: Seq<char>) -> Seq<char>
    decreases s.len(),
{
    if s.len() == 0 {
        Seq::empty()
    } else {
        upper_form(s.drop_last()) + upper_chars(s.last())
    }
}

/// The method that the name `m` denotes once upper-cased.
pub open spec fn method_named(m: Seq<char>) -> Option<HttpMethod> {
    let u = upper_form(m);
    if u == seq!['G', 'E', 'T'] {
        Some(HttpMethod::Get)
    } else if u == seq!['P', 'O', 'S', 'T'] {
        Some(HttpMethod::Post)
    } else if u == seq!['P', 'U', 'T'] {
        Some(HttpMethod::Put)
    } else if u == seq!['D', 'E', 'L', 'E', 'T', 'E'] {
        Some(HttpMethod::Delete)
    } else if u == seq!['H', 'E', 'A', 'D'] {
        Some(HttpMethod::Head)
    } else if u == seq!['P', 'A', 'T', 'C', 'H'] {
        Some(HttpMethod::Patch)
    } else {
        None
    }
}

fn push_upper(out: &mut Vec<char>, c: char)
    ensures
        final(out)@ == old(out)@ + upper_chars(c),
{
    let code = c as u32;
    if 97 <= code && code <= 122 {
        let u = (code - 32) as u8 as char;
        assert(u as int == c as int - 32);
        out.push(u);
    } else if c == '\u{17F}' {
        out.push('S');
    } else if c == '\u{131}' {
        out.push('I');
    } else if c == '\u{FB05}' || c == '\u{FB06}' {
        out.push('S');
        out.push('T');
    } else {
        out.push(c);
    }
    assert(out@ =~= old(out)@ + upper_chars(c));
}

/// Upper-cases `s` as `upper_form` describes.
fn upper_form_of(s: &str) -> (r: Vec<char>)
    ensures
        r@ == upper_form(s@),
{
    let n = s.unicode_len();
    let mut out: Vec<char> = Vec::new();
    let mut i: usize = 0;
    while i < n
        invariant
            n == s@.len(),
            i <= n,
            out@ == upper_form(s@.take(i as int)),
        decreases n - i,
    {
        let c = s.get_char(i);
        push_upper(&mut out, c);
        assert(s@.take(i + 1).drop_last() =~= s@.take(i as int));
        i += 1;
    }
    assert(s@.take(n as int) =~= s@);
    out
}

fn chars_eq(a: &Vec<char>, b: &[char]) -> (r: bool)
    ensures
        r == (a@ == b@),
{
    if a.len() != b.len() {
        return false;
    }
    let mut i: usize = 0;
    while i < a.len()
        invariant
            a@.len() == b@.len(),
            i <= a@.len(),
            forall|j: int| 0 <= j < i ==> a@[j] == b@[j],
        decreases a@.len() - i,
    {
        if a[i] != b[i] {
            return false;
        }
        i += 1;
    }
    assert(a@ =~= b@);
    true
}

/// The method named by `method`, compared after upper-casing.
pub fn method_from_name(method: &str) -> (r: Option<HttpMethod>)
    ensures
        r == method_named(method@),
{
    let u = upper_form_of(method);
    let get: [char; 3] = ['G', 'E', 'T'];
    let post: [char; 4] = ['P', 'O', 'S', 'T'];
    let put: [char; 3] = ['P', 'U', 'T'];
    let delete: [char; 6] = ['D', 'E', 'L', 'E', 'T', 'E'];
    let head: [char; 4] = ['H', 'E', 'A', 'D'];
    let patch: [char; 5] = ['P', 'A', 'T', 'C', 'H'];
    assert(get@ =~= seq!['G', 'E', 'T']);
    assert(post@ =~= seq!['P', 'O', 'S', 'T']);
    assert(put@ =~= seq!['P', 'U', 'T']);
    assert(delete@ =~= seq!['D', 'E', 'L', 'E', 'T', 'E']);
    assert(head@ =~= seq!['H', 'E', 'A', 'D']);
    assert(patch@ =~= seq!['P', 'A', 'T', 'C', 'H']);
    if chars_eq(&u, &get) {
        Some(HttpMethod::Get)
    } else if chars_eq(&u, &post) {
        Some(HttpMethod::Post)
    } else if chars_eq(&u, &put) {
        Some(HttpMethod::Put)
    } else if chars_eq(&u, &delete) {
        Some(HttpMethod::Delete)
    } else if chars_eq(&u, &head) {
        Some(HttpMethod::Head)
    } else if chars_eq(&u, &patch) {
        Some(HttpMethod::Patch)
    } else {
        None
    }
}

/// HTTP protocol handler: forwards requests to an HTTP client and remembers the
/// URL it was opened with.
pub struct HttpProtocol {
    client: Box<dyn HttpClient>,
    url: Option<String>,
    /// What the last open or close returned.
    outcome: Ghost<Option<DeviceResult<()>>>,
}

/// The connection status that an HTTP handler reports for its URL.
pub open spec fn http_status_for(url: Option<Seq<char>>) -> ConnectionStatus {
    if url is Some {
        ConnectionStatus::Connected
    } else {
        ConnectionStatus::Disconnected
    }
}

impl HttpProtocol {
    /// The URL the handler was opened with, if it is open.
    pub closed spec fn url_view(&self) -> Option<Seq<char>> {
        match self.url {
            Some(u) => Some(u@),
            None => None,
        }
    }

    /// The HTTP client.
    pub closed spec fn client_view(&self) -> &Box<dyn HttpClient> {
        &self.client
    }

    /// The requests sent through the handler's client so far.
    pub closed spec fn sent(&self) -> Seq<SentRequest> {
        self.client.sent()
    }

    /// The status code of the client's last response.
    pub closed spec fn last_status(&self) -> u16 {
        self.client.last_status()
    }

    /// The client's answer to the last request, once there has been one.
    pub closed spec fn last_reply(&self) -> Option<DeviceResult<Seq<u8>>> {
        self.client.last_reply()
    }

    /// The headers the client sends.
    pub closed spec fn header_map(&self) -> Map<Seq<char>, Seq<char>> {
        self.client.header_map()
    }

    /// A handler, not yet opened, whose client comes from `client_provider`.
    pub fn new(client_provider: Arc<dyn HttpClientProvider>) -> (r: Self)
        ensures
            r.url_view() is None,
    {
        HttpProtocol { client: client_provider.create_http_client().0, url: None, outcome: Ghost(None) }
    }

    /// A handler, not yet opened, that uses `client`.
    pub fn from_client(client: Box<dyn HttpClient>) -> (r: Self)
        ensures
            r.url_view() is None,
    {
        HttpProtocol { client, url: None, outcome: Ghost(None) }
    }

    /// Replaces the HTTP client.
    pub fn set_http_client(&mut self, client: Box<dyn HttpClient>)
        ensures
            *final(self).client_view() == client,
            final(self).sent() == client.sent(),
            final(self).url_view() == old(self).url_view(),
    {
        let mut client = client;
        std::mem::swap(&mut self.client, &mut client);
    }

    /// Sends a request with the method named by `method` (any case) to the client:
    /// GET, DELETE and HEAD without the body, POST, PUT and PATCH with it; the
    /// client's answer is returned. Any other method is `InvalidOperation`, and
    /// nothing is sent.
    pub fn send_request(&mut self, method: &str, url: &str, body: &[u8]) -> (r: DeviceResult<Vec<u8>>)
        ensures
            method_named(method@) is None ==> r == Err::<Vec<u8>, DeviceError>(DeviceError::InvalidOperation)
                && final(self).sent() == old(self).sent(),
            method_named(method@) matches Some(m) ==> final(self).sent() == old(self).sent().push(
                request_of(m, url@, body@),
            ) && final(self).last_reply() == Some(body_view(r)),
            final(self).url_view() == old(self).url_view(),
            final(self).header_map() == old(self).header_map(),
    {
        match method_from_name(method) {
            Some(HttpMethod::Get) => self.client.get(url),
            Some(HttpMethod::Post) => self.client.post(url, body),
            Some(HttpMethod::Put) => self.client.put(url, body),
            Some(HttpMethod::Delete) => self.client.delete(url),
            Some(HttpMethod::Head) => self.client.head(url),
            Some(HttpMethod::Patch) => self.client.patch(url, body),
            None => Err(DeviceError::InvalidOperation),
        }
    }

    /// Performs an HTTP GET request.
    pub fn get(&mut self, url: &str) -> (r: DeviceResult<Vec<u8>>)
        ensures
            final(self).sent() == old(self).sent().push(request_of(HttpMethod::Get, url@, Seq::empty())),
            final(self).url_view() == old(self).url_view(),
            final(self).header_map() == old(self).header_map(),
            final(self).last_reply() == Some(body_view(r)),
    {
        self.client.get(url)
    }

    /// Performs an HTTP POST request.
    pub fn post(&mut self, url: &str, body: &[u8]) -> (r: DeviceResult<Vec<u8>>)
        ensures
            final(self).sent() == old(self).sent().push(request_of(HttpMethod::Post, url@, body@)),
            final(self).url_view() == old(self).url_view(),
            final(self).header_map() == old(self).header_map(),
            final(self).last_reply() == Some(body_view(r)),
    {
        self.client.post(url, body)
    }

    /// Performs an HTTP PUT request.
    pub fn put(&mut self, url: &str, body: &[u8]) -> (r: DeviceResult<Vec<u8>>)
        ensures
            final(self).sent() == old(self).sent().push(request_of(HttpMethod::Put, url@, body@)),
            final(self).url_view() == old(self).url_view(),
            final(self).header_map() == old(self).header_map(),
            final(self).last_reply() == Some(body_view(r)),
    {
        self.client.put(url, body)
    }

    /// Performs an HTTP DELETE request.
    pub fn delete(&mut self, url: &str) -> (r: DeviceResult<Vec<u8>>)
        ensures
            final(self).sent() == old(self).sent().push(request_of(HttpMethod::Delete, url@, Seq::empty())),
            final(self).url_view() == old(self).url_view(),
            final(self).header_map() == old(self).header_map(),
            final(self).last_reply() == Some(body_view(r)),
    {
        self.client.delete(url)
    }

    /// Performs an HTTP HEAD request.
    pub fn head(&mut self, url: &str) -> (r: DeviceResult<Vec<u8>>)
        ensures
            final(self).sent() == old(self).sent().push(request_of(HttpMethod::Head, url@, Seq::empty())),
            final(self).url_view() == old(self).url_view(),
            final(self).header_map() == old(self).header_map(),
            final(self).last_reply() == Some(body_view(r)),
    {
        self.client.head(url)
    }

    /// Performs an HTTP PATCH request.
    pub fn patch(&mut self, url: &str, body: &[u8]) -> (r: DeviceResult<Vec<u8>>)
        ensures
            final(self).sent() == old(self).sent().push(request_of(HttpMethod::Patch, url@, body@)),
            final(self).url_view() == old(self).url_view(),
            final(self).header_map() == old(self).header_map(),
            final(self).last_reply() == Some(body_view(r)),
    {
        self.client.patch(url, body)
    }

    /// Sets a header for subsequent requests.
    pub fn set_header(&mut self, key: &str, value: &str)
        ensures
            final(self).sent() == old(self).sent(),
            final(self).url_view() == old(self).url_view(),
            final(self).header_map() == old(self).header_map().insert(key@, value@),
    {
        self.client.set_header(key, value);
    }

    /// Status code of the last request.
    pub fn status_code(&self) -> (r: u16)
        ensures
            r == self.last_status(),
    {
        self.client.status_code()
    }

    /// All current headers.
    pub fn headers(&self) -> (r: HeaderMap)
        ensures
            r@ == self.header_map(),
    {
        self.client.headers()
    }

    /// The URL this handler was opened with.
    pub fn url(&self) -> (r: Option<&str>)
        ensures
            match r {
                Some(u) => self.url_view() == Some(u@),
                None => self.url_view() is None,
            },
    {
        match &self.url {
            Some(u) => Some(u.as_str()),
            None => None,
        }
    }
}

impl ProtocolHandler for HttpProtocol {
    open spec fn status_spec(&self) -> DeviceResult<ConnectionStatus> {
        Ok(http_status_for(self.url_view()))
    }

    open spec fn http_sent(&self) -> Option<Seq<SentRequest>> {
        Some(self.sent())
    }

    open spec fn http_last_reply(&self) -> Option<DeviceResult<Seq<u8>>> {
        self.last_reply()
    }

    open spec fn opened_endpoint(&self) -> Option<Seq<char>> {
        self.url_view()
    }

    closed spec fn last_outcome(&self) -> Option<DeviceResult<()>> {
        self.outcome@
    }

    /// Opening records the URL, so the handler is connected.
    open spec fn status_after_open(&self, r: DeviceResult<()>) -> DeviceResult<ConnectionStatus> {
        Ok(ConnectionStatus::Connected)
    }

    /// A successful close forgets the URL; a failed one keeps the status.
    open spec fn status_after_close(&self, r: DeviceResult<()>) -> DeviceResult<ConnectionStatus> {
        if r is Ok {
            Ok(ConnectionStatus::Disconnected)
        } else {
            self.status_spec()
        }
    }

    /// Records `url` and connects the client to it.
    fn open(&mut self, url: &str) -> (r: DeviceResult<()>)
        ensures
            final(self).url_view() == Some(url@),
            final(self).header_map() == old(self).header_map(),
    {
        self.url = Some(String::from_str(url));
        let r = self.client.connect(url);
        proof {
            self.outcome@ = Some(r);
        }
        r
    }

    /// Disconnects the client; the URL is forgotten only when that succeeds.
    fn close(&mut self) -> (r: DeviceResult<()>)
        ensures
            r is Ok ==> final(self).url_view() is None,
            r is Err ==> final(self).url_view() == old(self).url_view(),
            final(self).header_map() == old(self).header_map(),
    {
        let result = self.client.disconnect();
        if result.is_ok() {
            self.url = None;
        }
        proof {
            self.outcome@ = Some(result);
        }
        result
    }

    /// Byte reads are not supported.
    fn read(&mut self, buf: &mut [u8]) -> (r: DeviceResult<usize>)
        ensures
            r == Err::<usize, DeviceError>(DeviceError::NotSupported),
            final(self).url_view() == old(self).url_view(),
    {
        Err(DeviceError::NotSupported)
    }

    /// Byte writes are not supported.
    fn write(&mut self, buf: &[u8]) -> (r: DeviceResult<usize>)
        ensures
            r == Err::<usize, DeviceError>(DeviceError::NotSupported),
            final(self).url_view() == old(self).url_view(),
    {
        Err(DeviceError::NotSupported)
    }

    /// Connected while a URL is recorded, disconnected otherwise.
    fn status(&self) -> (r: DeviceResult<ConnectionStatus>)
        ensures
            r == Ok::<ConnectionStatus, DeviceError>(http_status_for(self.url_view())),
    {
        Ok(
            if self.url.is_some() {
                ConnectionStatus::Connected
            } else {
                ConnectionStatus::Disconnected
            },
        )
    }

    /// Nothing is ever buffered.
    fn available(&self) -> (r: DeviceResult<usize>)
        ensures
            r == Ok::<usize, DeviceError>(0),
    {
        Ok(0)
    }

    /// An HTTP handler is always one.
    fn as_http_mut(&mut self) -> (r: Option<&mut HttpProtocol>)
        ensures
            r matches Some(h) && *h == *old(self) && *final(self) == *final(h),
    {
        Some(self)
    }
}

/// A handler reports itself connected once `open` has recorded a URL, and
/// disconnected once a successful `close` has forgotten it.
pub proof fn law_open_close_status(url: Seq<char>)
    ensures
        http_status_for(Some(url)) == ConnectionStatus::Connected,
        http_status_for(None) == ConnectionStatus::Disconnected,
{
}

} // verus!
