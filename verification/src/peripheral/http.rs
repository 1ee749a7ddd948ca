use vstd::prelude::*;

use crate::device::{DeviceError, DeviceResult};
use crate::device::network::protocols::{ConnectionStatus, HeaderMap, HttpClient, ProtocolHandler};
use crate::device::network::protocols::http::{method_from_name, method_named, upper_form, HttpMethod};
use crate::device::network::protocols::http_client::{request_of, SentRequest};

verus! {

/// A protocol handler that speaks HTTP.
pub trait HttpProtocolHandler {
    /// The requests this handler's client has sent so far; none without a client.
    spec fn requests_sent(&self) -> Seq<SentRequest>;

    /// Whether the handler has an HTTP client.
    spec fn has_http_client(&self) -> bool;

    /// The client's answer to the last request, once there has been one.
    spec fn handler_reply(&self) -> Option<DeviceResult<Seq<u8>>>;

    /// Sends an HTTP request through the client: `NotReady` without a client,
    /// `InvalidOperation` with nothing sent for a method, in any case, other than
    /// GET, POST, PUT, DELETE, HEAD and PATCH.
    fn send_request(&mut self, method: &str, url: &str, body: &[u8]) -> (r: DeviceResult<()>)
        ensures
            old(self).has_http_client() ==> (method_named(method@) matches Some(m) ==> final(self).requests_sent()
                == old(self).requests_sent().push(request_of(m, url@, body@))),
            !old(self).has_http_client() || method_named(method@) is None ==> final(self).requests_sent()
                == old(self).requests_sent(),
            !old(self).has_http_client() ==> r == Err::<(), DeviceError>(DeviceError::NotReady),
            old(self).has_http_client() && method_named(method@) is None ==> r == Err::<(), DeviceError>(
                DeviceError::InvalidOperation,
            ),
            old(self).has_http_client() && method_named(method@) is Some ==> (final(self).handler_reply() matches Some(
                reply,
            ) && r == reply_result(reply)),
            final(self).has_http_client() == old(self).has_http_client();

    /// Adds a header to the requests that follow.
    fn add_header(&mut self, key: &str, value: &str) -> DeviceResult<()>;

    /// The status code of the last response.
    fn get_status_code(&self) -> DeviceResult<u16>;

    /// The headers of the last response.
    fn get_headers(&self) -> DeviceResult<HeaderMap>;

    /// Sends a GET request: through the client when there is one,
    /// `NotReady` otherwise.
    fn get(&mut self, url: &str) -> (r: DeviceResult<()>)
        ensures
            old(self).has_http_client() ==> final(self).requests_sent() == old(self).requests_sent().push(
                request_of(HttpMethod::Get, url@, Seq::empty()),
            ),
            old(self).has_http_client() ==> (final(self).handler_reply() matches Some(reply) && r == reply_result(reply)),
            !old(self).has_http_client() ==> r == Err::<(), DeviceError>(DeviceError::NotReady)
                && final(self).requests_sent() == old(self).requests_sent(),
    {
        let method = "GET";
        let body: &[u8] = &[];
        assert(body@ =~= Seq::<u8>::empty());
        proof {
            reveal_strlit("GET");
            assert(method@ =~= seq!['G', 'E', 'T']);
            lemma_method_names();
        }
        self.send_request(method, url, body)
    }

    /// Sends a POST request with `body`: through the client when there is one,
    /// `NotReady` otherwise.
    fn post(&mut self, url: &str, body: &[u8]) -> (r: DeviceResult<()>)
        ensures
            old(self).has_http_client() ==> final(self).requests_sent() == old(self).requests_sent().push(
                request_of(HttpMethod::Post, url@, body@),
            ),
            old(self).has_http_client() ==> (final(self).handler_reply() matches Some(reply) && r == reply_result(reply)),
            !old(self).has_http_client() ==> r == Err::<(), DeviceError>(DeviceError::NotReady)
                && final(self).requests_sent() == old(self).requests_sent(),
    {
        let method = "POST";
        proof {
            reveal_strlit("POST");
            assert(method@ =~= seq!['P', 'O', 'S', 'T']);
            lemma_method_names();
        }
        self.send_request(method, url, body)
    }

    /// Sends a PUT request with `body`: through the client when there is one,
    /// `NotReady` otherwise.
    fn put(&mut self, url: &str, body: &[u8]) -> (r: DeviceResult<()>)
        ensures
            old(self).has_http_client() ==> final(self).requests_sent() == old(self).requests_sent().push(
                request_of(HttpMethod::Put, url@, body@),
            ),
            old(self).has_http_client() ==> (final(self).handler_reply() matches Some(reply) && r == reply_result(reply)),
            !old(self).has_http_client() ==> r == Err::<(), DeviceError>(DeviceError::NotReady)
                && final(self).requests_sent() == old(self).requests_sent(),
    {
        let method = "PUT";
        proof {
            reveal_strlit("PUT");
            assert(method@ =~= seq!['P', 'U', 'T']);
            lemma_method_names();
        }
        self.send_request(method, url, body)
    }

    /// Sends a DELETE request: through the client when there is one,
    /// `NotReady` otherwise.
    fn delete(&mut self, url: &str) -> (r: DeviceResult<()>)
        ensures
            old(self).has_http_client() ==> final(self).requests_sent() == old(self).requests_sent().push(
                request_of(HttpMethod::Delete, url@, Seq::empty()),
            ),
            old(self).has_http_client() ==> (final(self).handler_reply() matches Some(reply) && r == reply_result(reply)),
            !old(self).has_http_client() ==> r == Err::<(), DeviceError>(DeviceError::NotReady)
                && final(self).requests_sent() == old(self).requests_sent(),
    {
        let method = "DELETE";
        let body: &[u8] = &[];
        assert(body@ =~= Seq::<u8>::empty());
        proof {
            reveal_strlit("DELETE");
            assert(method@ =~= seq!['D', 'E', 'L', 'E', 'T', 'E']);
            lemma_method_names();
        }
        self.send_request(method, url, body)
    }

    /// Sends a HEAD request: through the client when there is one,
    /// `NotReady` otherwise.
    fn head(&mut self, url: &str) -> (r: DeviceResult<()>)
        ensures
            old(self).has_http_client() ==> final(self).requests_sent() == old(self).requests_sent().push(
                request_of(HttpMethod::Head, url@, Seq::empty()),
            ),
            old(self).has_http_client() ==> (final(self).handler_reply() matches Some(reply) && r == reply_result(reply)),
            !old(self).has_http_client() ==> r == Err::<(), DeviceError>(DeviceError::NotReady)
                && final(self).requests_sent() == old(self).requests_sent(),
    {
        let method = "HEAD";
        let body: &[u8] = &[];
        assert(body@ =~= Seq::<u8>::empty());
        proof {
            reveal_strlit("HEAD");
            assert(method@ =~= seq!['H', 'E', 'A', 'D']);
            lemma_method_names();
        }
        self.send_request(method, url, body)
    }

    /// Sends a PATCH request with `body`: through the client when there is one,
    /// `NotReady` otherwise.
    fn patch(&mut self, url: &str, body: &[u8]) -> (r: DeviceResult<()>)
        ensures
            old(self).has_http_client() ==> final(self).requests_sent() == old(self).requests_sent().push(
                request_of(HttpMethod::Patch, url@, body@),
            ),
            old(self).has_http_client() ==> (final(self).handler_reply() matches Some(reply) && r == reply_result(reply)),
            !old(self).has_http_client() ==> r == Err::<(), DeviceError>(DeviceError::NotReady)
                && final(self).requests_sent() == old(self).requests_sent(),
    {
        let method = "PATCH";
        proof {
            reveal_strlit("PATCH");
            assert(method@ =~= seq!['P', 'A', 'T', 'C', 'H']);
            lemma_method_names();
        }
        self.send_request(method, url, body)
    }
}

/// The six method names, in upper case, name their methods.
proof fn lemma_method_names()
    ensures
        method_named(seq!['G', 'E', 'T']) == Some(HttpMethod::Get),
        method_named(seq!['P', 'O', 'S', 'T']) == Some(HttpMethod::Post),
        method_named(seq!['P', 'U', 'T']) == Some(HttpMethod::Put),
        method_named(seq!['D', 'E', 'L', 'E', 'T', 'E']) == Some(HttpMethod::Delete),
        method_named(seq!['H', 'E', 'A', 'D']) == Some(HttpMethod::Head),
        method_named(seq!['P', 'A', 'T', 'C', 'H']) == Some(HttpMethod::Patch),
{
    reveal_with_fuel(upper_form, 7);
    assert(upper_form(seq!['G', 'E', 'T']) =~= seq!['G', 'E', 'T']);
    assert(upper_form(seq!['P', 'O', 'S', 'T']) =~= seq!['P', 'O', 'S', 'T']);
    assert(upper_form(seq!['P', 'U', 'T']) =~= seq!['P', 'U', 'T']);
    assert(upper_form(seq!['D', 'E', 'L', 'E', 'T', 'E']) =~= seq!['D', 'E', 'L', 'E', 'T', 'E']);
    assert(upper_form(seq!['H', 'E', 'A', 'D']) =~= seq!['H', 'E', 'A', 'D']);
    assert(upper_form(seq!['P', 'A', 'T', 'C', 'H']) =~= seq!['P', 'A', 'T', 'C', 'H']);
}

/// An HTTP request.
#[derive(Debug)]
pub struct HttpRequest {
    pub method: String,
    pub url: String,
    pub headers: HeaderMap,
    pub body: Vec<u8>,
}

/// An HTTP response.
#[derive(Debug)]
pub struct HttpResponse {
    pub status_code: u16,
    pub headers: HeaderMap,
    pub body: Vec<u8>,
}

/// What reading into `dst` from a response buffer at position `pos` yields: the
/// number of bytes read, what `dst` then holds and the new position. Reading at or
/// past the end yields nothing; otherwise as many bytes as both have room for are
/// copied to the front of `dst`.
pub open spec fn drain(buffer: Seq<u8>, pos: nat, dst: Seq<u8>) -> (nat, Seq<u8>, nat) {
    if pos >= buffer.len() {
        (0, dst, pos)
    } else {
        let left = (buffer.len() - pos) as nat;
        let n = if left < dst.len() { left } else { dst.len() };
        (n, buffer.subrange(pos as int, (pos + n) as int) + dst.skip(n as int), pos + n)
    }
}

/// A request's outcome for the client's answer `reply`: success exactly when the
/// client answered, with the response body dropped, and the client's error
/// otherwise.
pub open spec fn reply_result(reply: DeviceResult<Seq<u8>>) -> DeviceResult<()> {
    match reply {
        Ok(_) => Ok(()),
        Err(e) => Err(e),
    }
}

/// `send_request(method, url, body)` taking the handler from `before` to `after`
/// with result `r`.
pub open spec fn send_step(
    before: HttpProtocol,
    after: HttpProtocol,
    method: Seq<char>,
    url: Seq<char>,
    body: Seq<u8>,
    r: DeviceResult<()>,
) -> bool {
    &&& after.has_client() == before.has_client()
    &&& if !before.has_client() {
        r == Err::<(), DeviceError>(DeviceError::NotReady) && after.sent() == before.sent()
    } else {
        match method_named(method) {
            None => r == Err::<(), DeviceError>(DeviceError::InvalidOperation) && after.sent() == before.sent(),
            Some(m) => after.sent() == before.sent().push(request_of(m, url, body))
                && (after.client_reply() matches Some(reply) && r == reply_result(reply)),
        }
    }
}

/// `write(data)` taking the handler from `before` to `after` with result `r`.
pub open spec fn write_step(before: HttpProtocol, after: HttpProtocol, data: Seq<u8>, r: DeviceResult<usize>) -> bool {
    &&& after.has_client() == before.has_client()
    &&& if !before.has_client() {
        &&& r == Err::<usize, DeviceError>(DeviceError::NotReady)
        &&& after.buffer_view() == before.buffer_view()
        &&& after.pos_view() == before.pos_view()
    } else {
        match after.client_reply() {
            Some(Ok(response)) => {
                &&& r == Ok::<usize, DeviceError>(data.len() as usize)
                &&& after.buffer_view() == response
                &&& after.pos_view() == 0
            },
            Some(Err(e)) => {
                &&& r == Err::<usize, DeviceError>(e)
                &&& after.buffer_view() == before.buffer_view()
                &&& after.pos_view() == before.pos_view()
            },
            None => false,
        }
    }
}

/// `read` into `dst`, which then holds `out`, taking the handler from `before` to
/// `after` with result `r`.
pub open spec fn read_step(
    before: HttpProtocol,
    after: HttpProtocol,
    dst: Seq<u8>,
    out: Seq<u8>,
    r: DeviceResult<usize>,
) -> bool {
    &&& after.has_client() == before.has_client()
    &&& if !before.has_client() {
        r == Err::<usize, DeviceError>(DeviceError::NotReady) && out == dst
    } else if before.buffer_view().len() > 0 {
        let (n, d, p) = drain(before.buffer_view(), before.pos_view(), dst);
        &&& r == Ok::<usize, DeviceError>(n as usize)
        &&& out == d
        &&& after.buffer_view() == before.buffer_view()
        &&& after.pos_view() == p
    } else {
        match after.client_reply() {
            Some(Ok(response)) => {
                let (n, d, p) = drain(response, 0, dst);
                &&& r == Ok::<usize, DeviceError>(n as usize)
                &&& out == d
                &&& after.buffer_view() == response
                &&& after.pos_view() == p
            },
            Some(Err(e)) => {
                &&& r == Err::<usize, DeviceError>(e)
                &&& out == dst
                &&& after.buffer_view() == before.buffer_view()
                &&& after.pos_view() == before.pos_view()
            },
            None => false,
        }
    }
}

/// Two reads in a row hand out consecutive pieces of the response: together they
/// return exactly the bytes between the first read's position and the second's,
/// and no read goes past the end of the response.
pub proof fn law_reads_are_consecutive(buffer: Seq<u8>, pos: nat, first: Seq<u8>, second: Seq<u8>)
    requires
        pos <= buffer.len(),
    ensures
        ({
            let (n1, out1, p1) = drain(buffer, pos, first);
            let (n2, out2, p2) = drain(buffer, p1, second);
            &&& p1 == pos + n1
            &&& p2 == p1 + n2
            &&& p2 <= buffer.len()
            &&& out1.take(n1 as int) + out2.take(n2 as int) == buffer.subrange(pos as int, p2 as int)
        }),
{
    let (n1, out1, p1) = drain(buffer, pos, first);
    let (n2, out2, p2) = drain(buffer, p1, second);
    assert(out1.take(n1 as int) =~= buffer.subrange(pos as int, p1 as int));
    assert(out2.take(n2 as int) =~= buffer.subrange(p1 as int, p2 as int));
    assert(buffer.subrange(pos as int, p1 as int) + buffer.subrange(p1 as int, p2 as int)
        =~= buffer.subrange(pos as int, p2 as int));
}

/// Reads that begin with nothing kept GET the endpoint once and then hand out the
/// whole response in consecutive pieces: two reads into buffers of any sizes
/// return together the response's first bytes, as many as fit in the two
/// buffers, with nothing skipped or cut off.
pub proof fn law_reads_hand_out_whole_response(
    start: HttpProtocol,
    mid: HttpProtocol,
    end: HttpProtocol,
    first: Seq<u8>,
    first_out: Seq<u8>,
    first_r: DeviceResult<usize>,
    second: Seq<u8>,
    second_out: Seq<u8>,
    second_r: DeviceResult<usize>,
    response: Seq<u8>,
)
    requires
        start.has_client(),
        start.buffer_view().len() == 0,
        read_step(start, mid, first, first_out, first_r),
        mid.client_reply() == Some(Ok::<Seq<u8>, DeviceError>(response)),
        response.len() > 0,
        read_step(mid, end, second, second_out, second_r),
    ensures
        first_r matches Ok(n1) && second_r matches Ok(n2) && {
            let total = n1 + n2;
            &&& total == if response.len() < first.len() + second.len() {
                response.len() as int
            } else {
                first.len() + second.len() as int
            }
            &&& first_out.take(n1 as int) + second_out.take(n2 as int) == response.take(total)
        },
{
    let (n1, d1, p1) = drain(response, 0, first);
    law_reads_are_consecutive(response, 0, first, second);
    assert(response.subrange(0, (n1 + drain(response, p1, second).0) as int) =~= response.take(
        (n1 + drain(response, p1, second).0) as int,
    ));
}

/// A write keeps the POST's whole response for the reads that follow, in place of
/// whatever was kept before: the next read hands out that response from its first
/// byte, as much of it as fits.
pub proof fn law_read_after_write_gets_post_response(
    start: HttpProtocol,
    written: HttpProtocol,
    end: HttpProtocol,
    data: Seq<u8>,
    write_r: DeviceResult<usize>,
    dst: Seq<u8>,
    out: Seq<u8>,
    read_r: DeviceResult<usize>,
    response: Seq<u8>,
)
    requires
        start.has_client(),
        write_step(start, written, data, write_r),
        written.client_reply() == Some(Ok::<Seq<u8>, DeviceError>(response)),
        response.len() > 0,
        read_step(written, end, dst, out, read_r),
    ensures
        write_r == Ok::<usize, DeviceError>(data.len() as usize),
        read_r matches Ok(n) && n == (if response.len() < dst.len() { response.len() as int } else { dst.len() as int })
            && out.take(n as int) == response.take(n as int),
{
    let (n, d, p) = drain(response, 0, dst);
    assert(d.take(n as int) =~= response.take(n as int));
}

/// A request through a client ends as the client's answer does: it succeeds
/// exactly when the client answered, and fails with the client's own error
/// otherwise; the request sent is the one named.
pub proof fn law_request_reports_client_answer(
    before: HttpProtocol,
    after: HttpProtocol,
    method: Seq<char>,
    url: Seq<char>,
    body: Seq<u8>,
    r: DeviceResult<()>,
)
    requires
        before.has_client(),
        method_named(method) is Some,
        send_step(before, after, method, url, body, r),
    ensures
        after.sent() == before.sent().push(request_of(method_named(method)->Some_0, url, body)),
        after.client_reply() matches Some(reply) && (r is Ok <==> reply is Ok)
            && (reply matches Err(e) ==> r == Err::<(), DeviceError>(e)),
{
}

/// Copies from `buffer` at `pos` into `dst` as `drain` describes; returns the
/// number of bytes copied.
pub fn drain_into(buffer: &Vec<u8>, pos: usize, dst: &mut [u8]) -> (n: usize)
    ensures
        (n as nat, final(dst)@, (pos + n) as nat) == drain(buffer@, pos as nat, old(dst)@),
{
    if pos >= buffer.len() {
        return 0;
    }
    let len = buffer.len();
    let remaining = len - pos;
    let to_read = if remaining < dst.len() {
        remaining
    } else {
        dst.len()
    };
    let mut i: usize = 0;
    while i < to_read
        invariant
            len == buffer@.len(),
            pos < len,
            to_read <= len - pos,
            to_read <= old(dst)@.len(),
            i <= to_read,
            dst@.len() == old(dst)@.len(),
            dst@ == buffer@.subrange(pos as int, pos + i) + old(dst)@.skip(i as int),
        decreases to_read - i,
    {
        dst[i] = buffer[pos + i];
        i += 1;
        assert(dst@ =~= buffer@.subrange(pos as int, pos + i) + old(dst)@.skip(i as int));
    }
    to_read
}

/// HTTP protocol handler that keeps the last response and hands it out in reads.
pub struct HttpProtocol {
    endpoint: String,
    status: ConnectionStatus,
    http_client: Option<Box<dyn HttpClient>>,
    response_buffer: Vec<u8>,
    response_pos: usize,
    /// What the last open or close returned.
    outcome: Ghost<Option<DeviceResult<()>>>,
}

impl HttpProtocol {
    /// The endpoint the handler was last opened on.
    pub closed spec fn endpoint_view(&self) -> Seq<char> {
        self.endpoint@
    }

    /// The connection status.
    pub closed spec fn status_view(&self) -> ConnectionStatus {
        self.status
    }

    /// Whether an HTTP client is set.
    pub closed spec fn has_client(&self) -> bool {
        self.http_client is Some
    }

    /// The requests sent through the client so far; none without a client.
    pub closed spec fn sent(&self) -> Seq<SentRequest> {
        match self.http_client {
            Some(c) => c.sent(),
            None => Seq::empty(),
        }
    }

    /// The headers the client sends; none without a client.
    pub closed spec fn client_headers(&self) -> Map<Seq<char>, Seq<char>> {
        match self.http_client {
            Some(c) => c.header_map(),
            None => Map::empty(),
        }
    }

    /// The client's answer to its last request, once there has been one; none
    /// without a client.
    pub closed spec fn client_reply(&self) -> Option<DeviceResult<Seq<u8>>> {
        match self.http_client {
            Some(c) => c.last_reply(),
            None => None,
        }
    }

    /// The status code of the client's last response; 0 without a client.
    pub closed spec fn client_status(&self) -> u16 {
        match self.http_client {
            Some(c) => c.last_status(),
            None => 0,
        }
    }

    /// The response being read.
    pub closed spec fn buffer_view(&self) -> Seq<u8> {
        self.response_buffer@
    }

    /// How much of the response has been read.
    pub closed spec fn pos_view(&self) -> nat {
        self.response_pos as nat
    }

    /// Sets the HTTP client.
    pub fn set_http_client(&mut self, client: Box<dyn HttpClient>)
        ensures
            final(self).has_client(),
            final(self).endpoint_view() == old(self).endpoint_view(),
            final(self).status_view() == old(self).status_view(),
            final(self).buffer_view() == old(self).buffer_view(),
            final(self).pos_view() == old(self).pos_view(),
    {
        self.http_client = Some(client);
    }
}

impl Default for HttpProtocol {
    /// A handler with no endpoint, no client and nothing read, disconnected.
    fn default() -> (r: Self)
        ensures
            r.endpoint_view().len() == 0,
            r.status_view() == ConnectionStatus::Disconnected,
            !r.has_client(),
            r.buffer_view().len() == 0,
            r.pos_view() == 0,
    {
        HttpProtocol {
            endpoint: String::new(),
            status: ConnectionStatus::Disconnected,
            http_client: None,
            response_buffer: Vec::new(),
            response_pos: 0,
            outcome: Ghost(None),
        }
    }
}

impl Clone for HttpProtocol {
    /// Keeps endpoint and status; the client and the response are not copied.
    fn clone(&self) -> (r: Self)
        ensures
            r.endpoint_view() == self.endpoint_view(),
            r.status_view() == self.status_view(),
            !r.has_client(),
            r.buffer_view().len() == 0,
            r.pos_view() == 0,
    {
        HttpProtocol {
            endpoint: self.endpoint.clone(),
            status: self.status.clone(),
            http_client: None,
            response_buffer: Vec::new(),
            response_pos: 0,
            outcome: Ghost(None),
        }
    }
}

impl HttpProtocolHandler for HttpProtocol {
    open spec fn requests_sent(&self) -> Seq<SentRequest> {
        self.sent()
    }

    open spec fn has_http_client(&self) -> bool {
        self.has_client()
    }

    open spec fn handler_reply(&self) -> Option<DeviceResult<Seq<u8>>> {
        self.client_reply()
    }

    /// Sends the request through the client when there is one (`NotReady`
    /// otherwise) and the method, in any case, is one of GET, POST, PUT, DELETE,
    /// HEAD, PATCH (`InvalidOperation` otherwise); the response is dropped.
    fn send_request(&mut self, method: &str, url: &str, body: &[u8]) -> (r: DeviceResult<()>)
        ensures
            send_step(*old(self), *final(self), method@, url@, body@, r),
            old(self).has_client() ==> (method_named(method@) matches Some(m) ==> final(self).sent()
                == old(self).sent().push(request_of(m, url@, body@))),
            !old(self).has_client() || method_named(method@) is None ==> final(self).sent() == old(self).sent(),
            !old(self).has_client() ==> r == Err::<(), DeviceError>(DeviceError::NotReady),
            old(self).has_client() && method_named(method@) is None ==> r == Err::<(), DeviceError>(
                DeviceError::InvalidOperation,
            ),
            final(self).has_client() == old(self).has_client(),
            final(self).client_headers() == old(self).client_headers(),
            final(self).endpoint_view() == old(self).endpoint_view(),
            final(self).status_view() == old(self).status_view(),
            final(self).buffer_view() == old(self).buffer_view(),
            final(self).pos_view() == old(self).pos_view(),
    {
        match &mut self.http_client {
            Some(client) => {
                let reply = match method_from_name(method) {
                    Some(HttpMethod::Get) => client.get(url),
                    Some(HttpMethod::Post) => client.post(url, body),
                    Some(HttpMethod::Put) => client.put(url, body),
                    Some(HttpMethod::Delete) => client.delete(url),
                    Some(HttpMethod::Head) => client.head(url),
                    Some(HttpMethod::Patch) => client.patch(url, body),
                    None => return Err(DeviceError::InvalidOperation),
                };
                match reply {
                    Ok(_) => Ok(()),
                    Err(e) => Err(e),
                }
            },
            None => Err(DeviceError::NotReady),
        }
    }

    /// Sets the header on the client; `NotReady` without one.
    fn add_header(&mut self, key: &str, value: &str) -> (r: DeviceResult<()>)
        ensures
            final(self).sent() == old(self).sent(),
            r is Ok <==> old(self).has_client(),
            r is Err ==> r == Err::<(), DeviceError>(DeviceError::NotReady),
            final(self).has_client() == old(self).has_client(),
            old(self).has_client() ==> final(self).client_headers() == old(self).client_headers().insert(key@, value@),
            final(self).endpoint_view() == old(self).endpoint_view(),
            final(self).status_view() == old(self).status_view(),
            final(self).buffer_view() == old(self).buffer_view(),
            final(self).pos_view() == old(self).pos_view(),
    {
        match &mut self.http_client {
            Some(client) => {
                client.set_header(key, value);
                Ok(())
            },
            None => Err(DeviceError::NotReady),
        }
    }

    /// The client's status code; `NotReady` without a client.
    fn get_status_code(&self) -> (r: DeviceResult<u16>)
        ensures
            r is Ok <==> self.has_client(),
            r is Err ==> r == Err::<u16, DeviceError>(DeviceError::NotReady),
            r matches Ok(c) ==> c == self.client_status(),
    {
        match &self.http_client {
            Some(client) => Ok(client.status_code()),
            None => Err(DeviceError::NotReady),
        }
    }

    /// The client's headers; `NotReady` without a client.
    fn get_headers(&self) -> (r: DeviceResult<HeaderMap>)
        ensures
            r is Ok <==> self.has_client(),
            r matches Err(e) ==> e == DeviceError::NotReady,
            r matches Ok(h) ==> h@ == self.client_headers(),
    {
        match &self.http_client {
            Some(client) => Ok(client.headers()),
            None => Err(DeviceError::NotReady),
        }
    }
}

impl ProtocolHandler for HttpProtocol {
    open spec fn status_spec(&self) -> DeviceResult<ConnectionStatus> {
        Ok(self.status_view())
    }

    /// This handler keeps its own response buffer and is not the handler the
    /// request operations reach.
    open spec fn http_sent(&self) -> Option<Seq<SentRequest>> {
        None
    }

    /// Not the HTTP handler of the request operations.
    fn as_http_mut(&mut self) -> (r: Option<&mut crate::device::network::protocols::HttpProtocol>)
        ensures
            r is None,
    {
        None
    }

    /// The endpoint the handler keeps.
    open spec fn opened_endpoint(&self) -> Option<Seq<char>> {
        Some(self.endpoint_view())
    }

    closed spec fn last_outcome(&self) -> Option<DeviceResult<()>> {
        self.outcome@
    }

    /// Connected when the client connected, still connecting otherwise.
    open spec fn status_after_open(&self, r: DeviceResult<()>) -> DeviceResult<ConnectionStatus> {
        if r is Ok {
            Ok(ConnectionStatus::Connected)
        } else {
            Ok(ConnectionStatus::Connecting)
        }
    }

    /// Disconnected when the close succeeded; a failed close keeps the status.
    open spec fn status_after_close(&self, r: DeviceResult<()>) -> DeviceResult<ConnectionStatus> {
        if r is Ok {
            Ok(ConnectionStatus::Disconnected)
        } else {
            self.status_spec()
        }
    }

    /// Records `endpoint` and starts connecting; the handler is connected once the
    /// client has connected. Without a client it is `NotReady` and stays connecting.
    fn open(&mut self, endpoint: &str) -> (r: DeviceResult<()>)
        ensures
            final(self).sent() == old(self).sent(),
            final(self).endpoint_view() == endpoint@,
            final(self).has_client() == old(self).has_client(),
            final(self).client_headers() == old(self).client_headers(),
            !old(self).has_client() ==> r == Err::<(), DeviceError>(DeviceError::NotReady),
            r is Ok ==> final(self).status_view() == ConnectionStatus::Connected,
            r is Err ==> final(self).status_view() == ConnectionStatus::Connecting,
            final(self).buffer_view() == old(self).buffer_view(),
            final(self).pos_view() == old(self).pos_view(),
    {
        self.endpoint = String::from_str(endpoint);
        self.status = ConnectionStatus::Connecting;
        let r = match &mut self.http_client {
            Some(client) => client.connect(endpoint),
            None => Err(DeviceError::NotReady),
        };
        if r.is_ok() {
            self.status = ConnectionStatus::Connected;
        }
        proof {
            self.outcome@ = Some(r);
        }
        r
    }

    /// Disconnects the client. A disconnected handler, or one without a client, is
    /// `NotReady`; a failed disconnect keeps the status.
    fn close(&mut self) -> (r: DeviceResult<()>)
        ensures
            final(self).sent() == old(self).sent(),
            old(self).status_view() == ConnectionStatus::Disconnected || !old(self).has_client() ==>
                r == Err::<(), DeviceError>(DeviceError::NotReady),
            r is Ok ==> final(self).status_view() == ConnectionStatus::Disconnected,
            r is Err ==> final(self).status_view() == old(self).status_view(),
            final(self).has_client() == old(self).has_client(),
            final(self).client_headers() == old(self).client_headers(),
            final(self).endpoint_view() == old(self).endpoint_view(),
            final(self).buffer_view() == old(self).buffer_view(),
            final(self).pos_view() == old(self).pos_view(),
    {
        let r = if let ConnectionStatus::Disconnected = self.status {
            Err(DeviceError::NotReady)
        } else {
            match &mut self.http_client {
                Some(client) => client.disconnect(),
                None => Err(DeviceError::NotReady),
            }
        };
        if r.is_ok() {
            self.status = ConnectionStatus::Disconnected;
        }
        proof {
            self.outcome@ = Some(r);
        }
        r
    }

    /// POSTs `buf` to the endpoint and keeps the response for reading; returns the
    /// number of bytes written. `NotReady` without a client; a failed POST changes
    /// nothing.
    fn write(&mut self, buf: &[u8]) -> (r: DeviceResult<usize>)
        ensures
            write_step(*old(self), *final(self), buf@, r),
            old(self).has_client() ==> final(self).sent() == old(self).sent().push(
                request_of(HttpMethod::Post, old(self).endpoint_view(), buf@),
            ),
            !old(self).has_client() ==> final(self).sent() == old(self).sent(),
            !old(self).has_client() ==> r == Err::<usize, DeviceError>(DeviceError::NotReady),
            r is Ok ==> r == Ok::<usize, DeviceError>(buf@.len() as usize) && final(self).pos_view() == 0,
            r is Err ==> final(self).buffer_view() == old(self).buffer_view()
                && final(self).pos_view() == old(self).pos_view(),
            final(self).has_client() == old(self).has_client(),
            final(self).client_headers() == old(self).client_headers(),
            final(self).endpoint_view() == old(self).endpoint_view(),
            final(self).status_view() == old(self).status_view(),
    {
        match &mut self.http_client {
            Some(client) => {
                let response = match client.post(self.endpoint.as_str(), buf) {
                    Ok(body) => body,
                    Err(e) => return Err(e),
                };
                self.response_buffer = response;
                self.response_pos = 0;
                Ok(buf.len())
            },
            None => Err(DeviceError::NotReady),
        }
    }

    /// Reads from the kept response, first GETting the endpoint when no response
    /// is kept. `NotReady` without a client; a failed GET changes nothing.
    fn read(&mut self, buf: &mut [u8]) -> (r: DeviceResult<usize>)
        ensures
            read_step(*old(self), *final(self), old(buf)@, final(buf)@, r),
            old(self).has_client() && old(self).buffer_view().len() == 0 ==> final(self).sent()
                == old(self).sent().push(request_of(HttpMethod::Get, old(self).endpoint_view(), Seq::empty())),
            !old(self).has_client() || old(self).buffer_view().len() > 0 ==> final(self).sent() == old(self).sent(),
            !old(self).has_client() ==> r == Err::<usize, DeviceError>(DeviceError::NotReady),
            old(self).has_client() && old(self).buffer_view().len() > 0 ==> ({
                let (n, d, p) = drain(old(self).buffer_view(), old(self).pos_view(), old(buf)@);
                &&& r == Ok::<usize, DeviceError>(n as usize)
                &&& final(buf)@ == d
                &&& final(self).pos_view() == p
                &&& final(self).buffer_view() == old(self).buffer_view()
            }),
            old(self).has_client() && old(self).buffer_view().len() == 0 && r is Ok ==> ({
                let (n, d, p) = drain(final(self).buffer_view(), 0, old(buf)@);
                &&& r == Ok::<usize, DeviceError>(n as usize)
                &&& final(buf)@ == d
                &&& final(self).pos_view() == p
            }),
            r is Err ==> final(buf)@ == old(buf)@ && final(self).buffer_view() == old(self).buffer_view()
                && final(self).pos_view() == old(self).pos_view(),
            final(self).has_client() == old(self).has_client(),
            final(self).client_headers() == old(self).client_headers(),
            final(self).endpoint_view() == old(self).endpoint_view(),
            final(self).status_view() == old(self).status_view(),
    {
        match &mut self.http_client {
            Some(client) => {
                if self.response_buffer.len() == 0 {
                    let response = match client.get(self.endpoint.as_str()) {
                        Ok(body) => body,
                        Err(e) => return Err(e),
                    };
                    self.response_buffer = response;
                    self.response_pos = 0;
                }
                let n = drain_into(&self.response_buffer, self.response_pos, buf);
                self.response_pos = self.response_pos + n;
                Ok(n)
            },
            None => Err(DeviceError::NotReady),
        }
    }

    /// The connection status.
    fn status(&self) -> (r: DeviceResult<ConnectionStatus>)
        ensures
            r == Ok::<ConnectionStatus, DeviceError>(self.status_view()),
    {
        Ok(self.status.clone())
    }

    /// Nothing is reported as available.
    fn available(&self) -> (r: DeviceResult<usize>)
        ensures
            r == Ok::<usize, DeviceError>(0),
    {
        Ok(0)
    }
}

} // verus!
