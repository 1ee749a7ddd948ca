use vstd::prelude::*;

use crate::device::DeviceResult;
use super::http::HttpMethod;

verus! {

/// A map from header names to values; each name occurs once.
#[derive(Debug)]
pub struct HeaderMap {
    entries: Vec<(String, String)>,
}

/// The header names of a list of entries.
pub open spec fn keys_of(entries: Seq<(String, String)>) -> Seq<Seq<char>> {
    entries.map_values(|e: (String, String)| e.0@)
}

/// The map that a list of entries with distinct names denotes.
pub open spec fn map_of(entries: Seq<(String, String)>) -> Map<Seq<char>, Seq<char>> {
    Map::new(
        |k: Seq<char>| keys_of(entries).contains(k),
        |k: Seq<char>| entries[keys_of(entries).index_of(k)].1@,
    )
}

proof fn lemma_map_of_entry(entries: Seq<(String, String)>, i: int)
    requires
        keys_of(entries).no_duplicates(),
        0 <= i < entries.len(),
    ensures
        keys_of(entries).index_of(entries[i].0@) == i,
        map_of(entries).contains_key(entries[i].0@),
        map_of(entries)[entries[i].0@] == entries[i].1@,
{
    let k = entries[i].0@;
    assert(keys_of(entries)[i] == k);
    let p = keys_of(entries).index_of(k);
    assert(0 <= p < keys_of(entries).len() && keys_of(entries)[p] == k);
}

proof fn lemma_map_of_dom(entries: Seq<(String, String)>)
    requires
        keys_of(entries).no_duplicates(),
    ensures
        map_of(entries).dom() =~= keys_of(entries).to_set(),
        map_of(entries).dom().finite(),
        map_of(entries).dom().len() == entries.len(),
{
    keys_of(entries).unique_seq_to_set();
    assert(map_of(entries).dom() =~= keys_of(entries).to_set());
}

/// Replacing the value of an existing entry updates the map at that name.
proof fn lemma_map_of_update(entries: Seq<(String, String)>, i: int, e: (String, String))
    requires
        keys_of(entries).no_duplicates(),
        0 <= i < entries.len(),
        e.0@ == entries[i].0@,
    ensures
        keys_of(entries.update(i, e)) == keys_of(entries),
        map_of(entries.update(i, e)) == map_of(entries).insert(e.0@, e.1@),
{
    let new = entries.update(i, e);
    assert(keys_of(new) =~= keys_of(entries));
    let m = map_of(entries).insert(e.0@, e.1@);
    lemma_map_of_entry(new, i);
    assert forall|k: Seq<char>| #[trigger] map_of(new).contains_key(k) == m.contains_key(k) by {
        lemma_map_of_entry(entries, i);
    }
    assert forall|k: Seq<char>| map_of(new).contains_key(k) implies #[trigger] map_of(new)[k] == m[k] by {
        if k != e.0@ {
            let p = keys_of(new).index_of(k);
            assert(keys_of(new)[p] == k);
            lemma_map_of_entry(entries, p);
        }
    }
    assert(map_of(new) =~= m);
}

/// Appending an entry with a new name adds that name to the map.
proof fn lemma_map_of_push(entries: Seq<(String, String)>, e: (String, String))
    requires
        keys_of(entries).no_duplicates(),
        !keys_of(entries).contains(e.0@),
    ensures
        keys_of(entries.push(e)).no_duplicates(),
        map_of(entries.push(e)) == map_of(entries).insert(e.0@, e.1@),
{
    let new = entries.push(e);
    let ks = keys_of(entries);
    assert(keys_of(new) =~= ks.push(e.0@));
    assert forall|a: int, b: int|
        0 <= a < keys_of(new).len() && 0 <= b < keys_of(new).len() && a != b implies
        keys_of(new)[a] != keys_of(new)[b] by {
        if a == ks.len() as int {
            assert(ks[b] == keys_of(new)[b]);
        } else if b == ks.len() as int {
            assert(ks[a] == keys_of(new)[a]);
        }
    }
    let n = entries.len() as int;
    lemma_map_of_entry(new, n);
    let m = map_of(entries).insert(e.0@, e.1@);
    assert forall|k: Seq<char>| #[trigger] map_of(new).contains_key(k) == m.contains_key(k) by {
        if keys_of(new).contains(k) && k != e.0@ {
            let p = keys_of(new).index_of(k);
            assert(keys_of(new)[p] == k);
            assert(ks[p] == k);
        }
        if ks.contains(k) {
            let p = ks.index_of(k);
            assert(ks[p] == k);
            assert(keys_of(new)[p] == k);
        }
    }
    assert forall|k: Seq<char>| map_of(new).contains_key(k) implies #[trigger] map_of(new)[k] == m[k] by {
        if k != e.0@ {
            let p = keys_of(new).index_of(k);
            assert(keys_of(new)[p] == k);
            assert(p != n);
            assert(ks[p] == k);
            lemma_map_of_entry(entries, p);
            lemma_map_of_entry(new, p);
        }
    }
    assert(map_of(new) =~= m);
}

impl HeaderMap {
    #[verifier::type_invariant]
    closed spec fn unique_keys(&self) -> bool {
        keys_of(self.entries@).no_duplicates()
    }
}

impl View for HeaderMap {
    type V = Map<Seq<char>, Seq<char>>;

    closed spec fn view(&self) -> Map<Seq<char>, Seq<char>> {
        map_of(self.entries@)
    }
}

impl HeaderMap {
    /// An empty header map.
    pub fn new() -> (r: Self)
        ensures
            r@ == Map::<Seq<char>, Seq<char>>::empty(),
    {
        let r = HeaderMap { entries: Vec::new() };
        assert(r@ =~= Map::<Seq<char>, Seq<char>>::empty());
        r
    }

    /// Number of headers.
    pub fn len(&self) -> (r: usize)
        ensures
            r == self@.dom().len(),
    {
        proof {
            use_type_invariant(self);
            lemma_map_of_dom(self.entries@);
        }
        self.entries.len()
    }

    /// Whether there are no headers.
    pub fn is_empty(&self) -> (r: bool)
        ensures
            r == (self@.dom().len() == 0),
    {
        self.len() == 0
    }

    /// Index of the entry named `key`.
    fn find(&self, key: &String) -> (r: Option<usize>)
        ensures
            r is Some == self@.contains_key(key@),
            r matches Some(i) ==> i < self.entries@.len() && self.entries@[i as int].0@ == key@,
    {
        proof {
            use_type_invariant(self);
        }
        let mut i: usize = 0;
        while i < self.entries.len()
            invariant
                i <= self.entries@.len(),
                keys_of(self.entries@).no_duplicates(),
                forall|j: int| 0 <= j < i ==> #[trigger] self.entries@[j].0@ != key@,
            decreases self.entries@.len() - i,
        {
            if self.entries[i].0 == *key {
                proof {
                    lemma_map_of_entry(self.entries@, i as int);
                }
                return Some(i);
            }
            i += 1;
        }
        proof {
            let ks = keys_of(self.entries@);
            if ks.contains(key@) {
                let p = ks.index_of(key@);
                assert(ks[p] == key@);
                assert(self.entries@[p].0@ == key@);
            }
        }
        None
    }

    /// The value stored under `key`.
    pub fn get(&self, key: &str) -> (r: Option<&String>)
        ensures
            r is Some == self@.contains_key(key@),
            r matches Some(v) ==> v@ == self@[key@],
    {
        proof {
            use_type_invariant(self);
        }
        let k = String::from_str(key);
        match self.find(&k) {
            Some(i) => {
                proof {
                    lemma_map_of_entry(self.entries@, i as int);
                }
                Some(&self.entries[i].1)
            },
            None => None,
        }
    }

    /// Stores `value` under `key`, returning the value it replaces.
    pub fn insert(&mut self, key: String, value: String) -> (r: Option<String>)
        ensures
            final(self)@ == old(self)@.insert(key@, value@),
            r is Some == old(self)@.contains_key(key@),
            r matches Some(v) ==> v@ == old(self)@[key@],
    {
        proof {
            use_type_invariant(&*self);
        }
        let mut entries: Vec<(String, String)> = Vec::new();
        std::mem::swap(&mut entries, &mut self.entries);
        let found = {
            let probe = HeaderMap { entries };
            let f = probe.find(&key);
            entries = probe.entries;
            f
        };
        match found {
            Some(i) => {
                proof {
                    lemma_map_of_entry(entries@, i as int);
                    lemma_map_of_update(entries@, i as int, (key, value));
                }
                let previous = entries[i].1.clone();
                entries.set(i, (key, value));
                self.entries = entries;
                Some(previous)
            },
            None => {
                proof {
                    lemma_map_of_push(entries@, (key, value));
                }
                entries.push((key, value));
                self.entries = entries;
                None
            },
        }
    }

    /// The entries, each name once, in the order names were first inserted.
    pub fn pairs(&self) -> (r: &[(String, String)])
        ensures
            r@.len() == self@.dom().len(),
            forall|i: int|
                0 <= i < r@.len() ==> self@.contains_key(#[trigger] r@[i].0@) && self@[r@[i].0@] == r@[i].1@,
    {
        proof {
            use_type_invariant(self);
            lemma_map_of_dom(self.entries@);
            assert forall|i: int| 0 <= i < self.entries@.len() implies self@.contains_key(#[trigger] self.entries@[i].0@) && self@[self.entries@[i].0@] == self.entries@[i].1@ by {
                lemma_map_of_entry(self.entries@, i);
            }
        }
        self.entries.as_slice()
    }
}

impl Default for HeaderMap {
    /// No headers.
    fn default() -> (r: Self)
        ensures
            r@ == Map::<Seq<char>, Seq<char>>::empty(),
    {
        HeaderMap::new()
    }
}

impl Clone for HeaderMap {
    fn clone(&self) -> (r: Self)
        ensures
            r@ == self@,
    {
        proof {
            use_type_invariant(self);
        }
        let mut entries: Vec<(String, String)> = Vec::new();
        let mut i: usize = 0;
        while i < self.entries.len()
            invariant
                i <= self.entries@.len(),
                entries@.len() == i,
                forall|j: int| 0 <= j < i ==> #[trigger] entries@[j] == self.entries@[j],
            decreases self.entries@.len() - i,
        {
            let k = self.entries[i].0.clone();
            let v = self.entries[i].1.clone();
            entries.push((k, v));
            i += 1;
        }
        assert(entries@ =~= self.entries@);
        HeaderMap { entries }
    }
}

/// HTTP connection state.
pub struct HttpState {
    pub headers: HeaderMap,
    pub status_code: u16,
}

impl Default for HttpState {
    /// No headers and status 200 (OK).
    fn default() -> (r: Self)
        ensures
            r.headers@ == Map::<Seq<char>, Seq<char>>::empty(),
            r.status_code == 200,
    {
        HttpState { headers: HeaderMap::new(), status_code: 200 }
    }
}

impl Clone for HttpState {
    fn clone(&self) -> (r: Self)
        ensures
            r.headers@ == self.headers@,
            r.status_code == self.status_code,
    {
        HttpState { headers: self.headers.clone(), status_code: self.status_code }
    }
}

/// Header and status-code bookkeeping shared by HTTP client implementations.
pub struct BaseHttpClient {
    state: HttpState,
}

impl Default for BaseHttpClient {
    fn default() -> (r: Self)
        ensures
            r.headers_view() == Map::<Seq<char>, Seq<char>>::empty(),
            r.status_view() == 200,
    {
        BaseHttpClient { state: HttpState::default() }
    }
}

impl BaseHttpClient {
    /// The headers currently set.
    pub closed spec fn headers_view(&self) -> Map<Seq<char>, Seq<char>> {
        self.state.headers@
    }

    /// The status code of the last request.
    pub closed spec fn status_view(&self) -> u16 {
        self.state.status_code
    }

    /// Current state.
    pub fn state(&self) -> (r: &HttpState)
        ensures
            r.headers@ == self.headers_view(),
            r.status_code == self.status_view(),
    {
        &self.state
    }

    /// Mutable access to the state; whatever is left in it becomes the client's state.
    pub fn state_mut(&mut self) -> (r: &mut HttpState)
        ensures
            r.headers@ == old(self).headers_view(),
            r.status_code == old(self).status_view(),
            final(self).headers_view() == final(r).headers@,
            final(self).status_view() == final(r).status_code,
    {
        &mut self.state
    }

    /// Sets a header for subsequent requests.
    pub fn set_header(&mut self, key: String, value: String)
        ensures
            final(self).headers_view() == old(self).headers_view().insert(key@, value@),
            final(self).status_view() == old(self).status_view(),
    {
        self.state.headers.insert(key, value);
    }

    /// All current headers.
    pub fn headers(&self) -> (r: &HeaderMap)
        ensures
            r@ == self.headers_view(),
    {
        &self.state.headers
    }

    /// Current status code.
    pub fn status_code(&self) -> (r: u16)
        ensures
            r == self.status_view(),
    {
        self.state.status_code
    }

    /// Updates the status code (typically after a request).
    pub fn set_status_code(&mut self, code: u16)
        ensures
            final(self).status_view() == code,
            final(self).headers_view() == old(self).headers_view(),
    {
        self.state.status_code = code;
    }
}

/// A request as a client receives it: method, URL and body.
pub struct SentRequest {
    pub method: HttpMethod,
    pub url: Seq<char>,
    pub body: Seq<u8>,
}

/// The request that a call of method `method` on `url` with `body` sends; GET,
/// DELETE and HEAD send no body.
pub open spec fn request_of(method: HttpMethod, url: Seq<char>, body: Seq<u8>) -> SentRequest {
    match method {
        HttpMethod::Get | HttpMethod::Delete | HttpMethod::Head => SentRequest { method, url, body: Seq::empty() },
        _ => SentRequest { method, url, body },
    }
}

/// The model of a request's answer: the response body, or the error.
pub open spec fn body_view(r: DeviceResult<Vec<u8>>) -> DeviceResult<Seq<u8>> {
    match r {
        Ok(body) => Ok(body@),
        Err(e) => Err(e),
    }
}

/// Platform-agnostic HTTP client interface.
///
/// Its spec functions are left unspecified for an implementation that does not
/// define them.
pub trait HttpClient {
    /// The requests sent through this client so far, oldest first.
    closed spec fn sent(&self) -> Seq<SentRequest> {
        arbitrary()
    }

    /// The status code of the last response.
    closed spec fn last_status(&self) -> u16 {
        arbitrary()
    }

    /// The answer to the last request, once there has been one.
    closed spec fn last_reply(&self) -> Option<DeviceResult<Seq<u8>>> {
        arbitrary()
    }

    /// The headers the client sends.
    closed spec fn header_map(&self) -> Map<Seq<char>, Seq<char>> {
        arbitrary()
    }

    /// Connects to an endpoint; no request is sent.
    fn connect(&mut self, endpoint: &str) -> (r: DeviceResult<()>)
        ensures
            final(self).sent() == old(self).sent(),
            final(self).header_map() == old(self).header_map();

    /// Disconnects from the current endpoint; no request is sent.
    fn disconnect(&mut self) -> (r: DeviceResult<()>)
        ensures
            final(self).sent() == old(self).sent(),
            final(self).header_map() == old(self).header_map();

    /// Sends a GET request for `url` and returns the response body.
    fn get(&mut self, url: &str) -> (r: DeviceResult<Vec<u8>>)
        ensures
            final(self).sent() == old(self).sent().push(request_of(HttpMethod::Get, url@, Seq::empty())),
            final(self).header_map() == old(self).header_map(),
            final(self).last_reply() == Some(body_view(r));

    /// Sends a POST request with `body` to `url` and returns the response body.
    fn post(&mut self, url: &str, body: &[u8]) -> (r: DeviceResult<Vec<u8>>)
        ensures
            final(self).sent() == old(self).sent().push(request_of(HttpMethod::Post, url@, body@)),
            final(self).header_map() == old(self).header_map(),
            final(self).last_reply() == Some(body_view(r));

    /// Sends a PUT request with `body` to `url` and returns the response body.
    fn put(&mut self, url: &str, body: &[u8]) -> (r: DeviceResult<Vec<u8>>)
        ensures
            final(self).sent() == old(self).sent().push(request_of(HttpMethod::Put, url@, body@)),
            final(self).header_map() == old(self).header_map(),
            final(self).last_reply() == Some(body_view(r));

    /// Sends a DELETE request for `url` and returns the response body.
    fn delete(&mut self, url: &str) -> (r: DeviceResult<Vec<u8>>)
        ensures
            final(self).sent() == old(self).sent().push(request_of(HttpMethod::Delete, url@, Seq::empty())),
            final(self).header_map() == old(self).header_map(),
            final(self).last_reply() == Some(body_view(r));

    /// Sends a HEAD request for `url` and returns the response body.
    fn head(&mut self, url: &str) -> (r: DeviceResult<Vec<u8>>)
        ensures
            final(self).sent() == old(self).sent().push(request_of(HttpMethod::Head, url@, Seq::empty())),
            final(self).header_map() == old(self).header_map(),
            final(self).last_reply() == Some(body_view(r));

    /// Sends a PATCH request with `body` to `url` and returns the response body.
    fn patch(&mut self, url: &str, body: &[u8]) -> (r: DeviceResult<Vec<u8>>)
        ensures
            final(self).sent() == old(self).sent().push(request_of(HttpMethod::Patch, url@, body@)),
            final(self).header_map() == old(self).header_map(),
            final(self).last_reply() == Some(body_view(r));

    /// Sets a header for subsequent requests; no request is sent.
    fn set_header(&mut self, key: &str, value: &str)
        ensures
            final(self).sent() == old(self).sent(),
            final(self).header_map() == old(self).header_map().insert(key@, value@);

    /// Status code of the last request.
    fn status_code(&self) -> (r: u16)
        ensures
            r == self.last_status();

    /// All current headers.
    fn headers(&self) -> (r: HeaderMap)
        ensures
            r@ == self.header_map();
}

/// A header that was set is read back with the value it was set to, and setting
/// one header leaves every other header as it was.
pub proof fn law_header_read_after_write(
    before: Map<Seq<char>, Seq<char>>,
    after: Map<Seq<char>, Seq<char>>,
    key: Seq<char>,
    value: Seq<char>,
    other: Seq<char>,
)
    requires
        after == before.insert(key, value),
    ensures
        after.contains_key(key),
        after[key] == value,
        other != key ==> (after.contains_key(other) == before.contains_key(other)),
        other != key && before.contains_key(other) ==> after[other] == before[other],
{
}

} // verus!
