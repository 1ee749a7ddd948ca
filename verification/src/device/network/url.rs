use vstd::prelude::*;

use crate::device::{DeviceError, DeviceResult};
use super::protocols::registry::{protocol_named, NetworkProtocol};

verus! {

/// The separator "://" starts at position `i` of `s`.
pub open spec fn is_sep_at(s: Seq<char>, i: int) -> bool {
    &&& 0 <= i
    &&& i + 3 <= s.len()
    &&& s[i] == ':'
    &&& s[i + 1] == '/'
    &&& s[i + 2] == '/'
}

/// `s` contains the separator "://".
pub open spec fn has_sep(s: Seq<char>) -> bool {
    exists|i: int| #[trigger] is_sep_at(s, i)
}

/// `i` is the position of the first "://" in `s`.
pub open spec fn is_first_sep(s: Seq<char>, i: int) -> bool {
    &&& is_sep_at(s, i)
    &&& forall|j: int| 0 <= j < i ==> !#[trigger] is_sep_at(s, j)
}

/// The position of the first "://" in `s` (meaningful when `has_sep(s)`).
pub open spec fn first_sep(s: Seq<char>) -> int {
    choose|i: int| is_first_sep(s, i)
}

/// `s` contains the character `c`.
pub open spec fn has_char(s: Seq<char>, c: char) -> bool {
    exists|i: int| 0 <= i < s.len() && #[trigger] s[i] == c
}

/// `i` is the position of the first `c` in `s`.
pub open spec fn is_first_char(s: Seq<char>, c: char, i: int) -> bool {
    &&& 0 <= i < s.len()
    &&& s[i] == c
    &&& forall|j: int| 0 <= j < i ==> #[trigger] s[j] != c
}

/// The position of the first `c` in `s` (meaningful when `has_char(s, c)`).
pub open spec fn first_char(s: Seq<char>, c: char) -> int {
    choose|i: int| is_first_char(s, c, i)
}

/// The text before the first "://", or `None` when there is no "://".
pub open spec fn scheme_of(url: Seq<char>) -> Option<Seq<char>> {
    if has_sep(url) {
        Some(url.take(first_sep(url)))
    } else {
        None
    }
}

/// The host and port of a URL: the text after the first "://", cut at the next
/// "://" and then at the first '/'; empty when the URL has no "://".
pub open spec fn base_of(url: Seq<char>) -> Seq<char> {
    if has_sep(url) {
        let rest = url.skip(first_sep(url) + 3);
        let seg = if has_sep(rest) {
            rest.take(first_sep(rest))
        } else {
            rest
        };
        if has_char(seg, '/') {
            seg.take(first_char(seg, '/'))
        } else {
            seg
        }
    } else {
        Seq::empty()
    }
}

/// `c` is an ASCII decimal digit.
pub open spec fn is_digit(c: char) -> bool {
    48 <= c as int && c as int <= 57
}

/// The unit number and the URL that follow the "N[x]:" prefix of a device spec,
/// or `None` when the prefix is malformed. The 'N' may be upper or lower case,
/// the digit must be 1 to 8, and a missing digit means unit 1.
pub open spec fn split_prefix(spec: Seq<char>) -> Option<(u8, Seq<char>)> {
    if spec.len() == 0 || (spec[0] != 'N' && spec[0] != 'n') {
        None
    } else if spec.len() > 1 && is_digit(spec[1]) {
        let unit = spec[1] as int - 48;
        if 1 <= unit && unit <= 8 && spec.len() > 2 && spec[2] == ':' {
            Some((unit as u8, spec.skip(3)))
        } else {
            None
        }
    } else if spec.len() > 1 && spec[1] == ':' {
        Some((1u8, spec.skip(2)))
    } else {
        None
    }
}

/// The mathematical content of a parsed network URL.
pub struct NetworkUrlModel {
    pub unit: u8,
    pub url: Seq<char>,
    pub protocol: NetworkProtocol,
}

/// What parsing the device spec `spec` yields.
pub open spec fn parse_spec(spec: Seq<char>) -> Result<NetworkUrlModel, DeviceError> {
    match split_prefix(spec) {
        None => Err(DeviceError::InvalidUrl),
        Some((unit, url)) => match scheme_of(url) {
            None => Err(DeviceError::InvalidUrl),
            Some(scheme) => match protocol_named(scheme) {
                None => Err(DeviceError::UnsupportedProtocol),
                Some(protocol) => Ok(NetworkUrlModel { unit, url, protocol }),
            },
        },
    }
}

/// Two URLs share a base when their protocols and their host-and-port parts agree.
pub open spec fn same_base(a: NetworkUrlModel, b: NetworkUrlModel) -> bool {
    a.protocol == b.protocol && base_of(a.url) == base_of(b.url)
}

/// A successful parse yields a unit from 1 to 8 and a URL whose scheme names the
/// protocol that was recorded, and the URL is the spec with its "N[x]:" prefix removed.
pub proof fn lemma_parsed_url_well_formed(spec: Seq<char>)
    requires
        parse_spec(spec) is Ok,
    ensures
        ({
            let m = parse_spec(spec)->Ok_0;
            &&& 1 <= m.unit <= 8
            &&& scheme_of(m.url) is Some
            &&& protocol_named(scheme_of(m.url)->Some_0) == Some(m.protocol)
            &&& (m.url == spec.skip(2) || m.url == spec.skip(3))
        }),
{
}

/// The network indicator is case-insensitive: "n..." parses exactly as "N...".
pub proof fn lemma_indicator_case_insensitive(rest: Seq<char>)
    ensures
        parse_spec(seq!['n'] + rest) == parse_spec(seq!['N'] + rest),
{
    let lo = seq!['n'] + rest;
    let up = seq!['N'] + rest;
    if lo.len() > 1 {
        assert(lo[1] == up[1]);
        assert(lo.skip(2) =~= up.skip(2));
    }
    if lo.len() > 2 {
        assert(lo[2] == up[2]);
        assert(lo.skip(3) =~= up.skip(3));
    }
}

/// A spec without a unit number names unit 1: "N:url" parses exactly as "N1:url".
pub proof fn lemma_default_unit(url: Seq<char>)
    ensures
        parse_spec(seq!['N', ':'] + url) == parse_spec(seq!['N', '1', ':'] + url),
{
    let short = seq!['N', ':'] + url;
    let long = seq!['N', '1', ':'] + url;
    assert(short.skip(2) =~= url);
    assert(long.skip(3) =~= url);
    assert(!is_digit(short[1]));
    assert(is_digit(long[1]));
}

/// Sharing a base is reflexive.
pub proof fn lemma_same_base_reflexive(a: NetworkUrlModel)
    ensures
        same_base(a, a),
{
}

/// Sharing a base is symmetric.
pub proof fn lemma_same_base_symmetric(a: NetworkUrlModel, b: NetworkUrlModel)
    requires
        same_base(a, b),
    ensures
        same_base(b, a),
{
}

/// Sharing a base is transitive.
pub proof fn lemma_same_base_transitive(a: NetworkUrlModel, b: NetworkUrlModel, c: NetworkUrlModel)
    requires
        same_base(a, b),
        same_base(b, c),
    ensures
        same_base(a, c),
{
}

/// A position where "://" occurs, with none before it, is the first one.
pub proof fn lemma_first_sep_is(s: Seq<char>, i: int)
    requires
        is_first_sep(s, i),
    ensures
        has_sep(s),
        first_sep(s) == i,
{
    assert(is_sep_at(s, i));
    let k = first_sep(s);
    assert(is_first_sep(s, k));
    if k < i {
        assert(!is_sep_at(s, k));
    } else if k > i {
        assert(!is_sep_at(s, i));
    }
}

/// A position where `c` occurs, with none before it, is the first one.
pub proof fn lemma_first_char_is(s: Seq<char>, c: char, i: int)
    requires
        is_first_char(s, c, i),
    ensures
        has_char(s, c),
        first_char(s, c) == i,
{
    assert(s[i] == c);
    let k = first_char(s, c);
    assert(is_first_char(s, c, k));
    if k < i {
        assert(s[k] != c);
    } else if k > i {
        assert(s[i] != c);
    }
}

/// Below any occurrence of "://" there is a first one.
proof fn lemma_some_first_sep(s: Seq<char>, w: int)
    requires
        is_sep_at(s, w),
    ensures
        exists|k: int| #[trigger] is_first_sep(s, k),
    decreases w,
{
    if exists|j: int| 0 <= j < w && #[trigger] is_sep_at(s, j) {
        let j = choose|j: int| 0 <= j < w && #[trigger] is_sep_at(s, j);
        lemma_some_first_sep(s, j);
    } else {
        assert(is_first_sep(s, w));
    }
}

/// When "://" occurs, `first_sep` is the position of its first occurrence.
proof fn lemma_first_sep_exists(s: Seq<char>)
    requires
        has_sep(s),
    ensures
        is_first_sep(s, first_sep(s)),
{
    let w = choose|i: int| #[trigger] is_sep_at(s, i);
    lemma_some_first_sep(s, w);
}

/// The host-and-port part of `scheme://host/path` is `host`, whatever the path
/// (when it does not start with '/'), and so is that of `scheme://host`: URLs that
/// differ only in their path, or in a trailing slash, share a base.
pub proof fn lemma_base_ignores_path(scheme: Seq<char>, host: Seq<char>, path: Seq<char>)
    requires
        !has_char(scheme, ':'),
        !has_char(host, '/'),
        path.len() == 0 || path[0] != '/',
    ensures
        base_of(scheme + seq![':', '/', '/'] + host + seq!['/'] + path) == host,
        base_of(scheme + seq![':', '/', '/'] + host) == host,
{
    let sep = seq![':', '/', '/'];
    let n = scheme.len() as int;
    let h = host.len() as int;
    let long = scheme + sep + host + seq!['/'] + path;
    let short = scheme + sep + host;
    assert forall|j: int| 0 <= j < n implies !#[trigger] is_sep_at(long, j) by {
        assert(long[j] == scheme[j]);
        if scheme[j] == ':' {
            assert(has_char(scheme, ':'));
        }
    }
    assert(is_sep_at(long, n));
    lemma_first_sep_is(long, n);
    assert forall|j: int| 0 <= j < n implies !#[trigger] is_sep_at(short, j) by {
        assert(short[j] == scheme[j]);
        if scheme[j] == ':' {
            assert(has_char(scheme, ':'));
        }
    }
    assert(is_sep_at(short, n));
    lemma_first_sep_is(short, n);
    let rest = long.skip(n + 3);
    assert(rest =~= host + seq!['/'] + path);
    assert forall|j: int| 0 <= j <= h implies !#[trigger] is_sep_at(rest, j) by {
        if j < h - 1 {
            assert(rest[j + 1] == host[j + 1]);
            if host[j + 1] == '/' {
                assert(has_char(host, '/'));
            }
        } else if j == h - 1 {
            assert(rest[j + 1] == '/');
            if j + 2 < rest.len() {
                assert(rest[j + 2] == path[0]);
            }
        } else {
            assert(rest[j] == '/');
        }
    }
    let seg = if has_sep(rest) {
        rest.take(first_sep(rest))
    } else {
        rest
    };
    if has_sep(rest) {
        let k = first_sep(rest);
        lemma_first_sep_exists(rest);
        if k <= h {
            assert(!is_sep_at(rest, k));
        }
    }
    assert forall|j: int| 0 <= j < h implies #[trigger] seg[j] != '/' by {
        assert(seg[j] == host[j]);
        if host[j] == '/' {
            assert(has_char(host, '/'));
        }
    }
    assert(seg[h] == '/');
    lemma_first_char_is(seg, '/', h);
    assert(seg.take(h) =~= host);
    let rest2 = short.skip(n + 3);
    assert(rest2 =~= host);
    assert forall|j: int| 0 <= j < rest2.len() implies !#[trigger] is_sep_at(rest2, j) by {
        if j + 1 < rest2.len() && rest2[j + 1] == '/' {
            assert(host[j + 1] == '/');
            assert(has_char(host, '/'));
        }
    }
    if has_sep(rest2) {
        lemma_first_sep_exists(rest2);
    }
}

/// Position of the first "://" in `s`.
pub(crate) fn find_sep(s: &str) -> (r: Option<usize>)
    ensures
        r is None <==> !has_sep(s@),
        r matches Some(i) ==> has_sep(s@) && first_sep(s@) == i && i + 3 <= s@.len(),
{
    let n = s.unicode_len();
    let mut i: usize = 0;
    while n >= 3 && i <= n - 3
        invariant
            n == s@.len(),
            i <= n,
            forall|j: int| 0 <= j < i ==> !#[trigger] is_sep_at(s@, j),
        decreases n - i,
    {
        if s.get_char(i) == ':' && s.get_char(i + 1) == '/' && s.get_char(i + 2) == '/' {
            proof {
                lemma_first_sep_is(s@, i as int);
            }
            return Some(i);
        }
        assert(!is_sep_at(s@, i as int));
        i += 1;
    }
    assert forall|j: int| !is_sep_at(s@, j) by {
        if 0 <= j < i {
        }
    }
    None
}

/// Position of the first `c` in `s`.
fn find_char(s: &str, c: char) -> (r: Option<usize>)
    ensures
        r is None <==> !has_char(s@, c),
        r matches Some(i) ==> has_char(s@, c) && first_char(s@, c) == i && i < s@.len(),
{
    let n = s.unicode_len();
    let mut i: usize = 0;
    while i < n
        invariant
            n == s@.len(),
            i <= n,
            forall|j: int| 0 <= j < i ==> #[trigger] s@[j] != c,
        decreases n - i,
    {
        if s.get_char(i) == c {
            proof {
                lemma_first_char_is(s@, c, i as int);
            }
            return Some(i);
        }
        i += 1;
    }
    None
}

/// The text before the first "://" of `url`.
fn extract_scheme(url: &str) -> (r: DeviceResult<&str>)
    ensures
        match r {
            Ok(s) => scheme_of(url@) == Some(s@),
            Err(e) => scheme_of(url@) is None && e == DeviceError::InvalidUrl,
        },
{
    match find_sep(url) {
        Some(i) => Ok(url.substring_char(0, i)),
        None => Err(DeviceError::InvalidUrl),
    }
}

/// The host-and-port part of `url`.
fn base_str(url: &str) -> (r: &str)
    ensures
        r@ == base_of(url@),
{
    let n = url.unicode_len();
    match find_sep(url) {
        None => url.substring_char(0, 0),
        Some(i) => {
            let rest = url.substring_char(i + 3, n);
            assert(rest@ == url@.skip(first_sep(url@) + 3));
            let seg = match find_sep(rest) {
                Some(j) => rest.substring_char(0, j),
                None => rest,
            };
            match find_char(seg, '/') {
                Some(k) => seg.substring_char(0, k),
                None => seg,
            }
        },
    }
}

/// Whether two strings hold the same characters.
pub(crate) fn str_eq(a: &str, b: &str) -> (r: bool)
    ensures
        r == (a@ == b@),
{
    String::from_str(a) == String::from_str(b)
}

/// A parsed network URL with its unit number.
#[derive(Debug, PartialEq)]
pub struct NetworkUrl {
    /// The network unit number (1-8).
    pub unit: u8,
    /// The URL without the "N[x]:" prefix.
    pub url: String,
    /// The protocol named by the URL's scheme.
    pub protocol: NetworkProtocol,
}

impl View for NetworkUrl {
    type V = NetworkUrlModel;

    open spec fn view(&self) -> NetworkUrlModel {
        NetworkUrlModel { unit: self.unit, url: self.url@, protocol: self.protocol }
    }
}

impl Clone for NetworkUrl {
    fn clone(&self) -> (r: Self)
        ensures
            r@ == self@,
    {
        NetworkUrl { unit: self.unit, url: self.url.clone(), protocol: self.protocol }
    }
}

/// The model of a parse result.
pub open spec fn url_result_view(r: DeviceResult<NetworkUrl>) -> Result<NetworkUrlModel, DeviceError> {
    match r {
        Ok(u) => Ok(u@),
        Err(e) => Err(e),
    }
}

impl NetworkUrl {
    /// Parses a device spec of the form `N[x]:protocol://...`, where `x` is an
    /// optional unit number 1-8 (default 1) and the `N` is case-insensitive.
    pub fn parse(spec: &str) -> (r: DeviceResult<Self>)
        ensures
            url_result_view(r) == parse_spec(spec@),
    {
        let n = spec.unicode_len();
        if n == 0 {
            return Err(DeviceError::InvalidUrl);
        }
        let c0 = spec.get_char(0);
        if c0 != 'N' && c0 != 'n' {
            return Err(DeviceError::InvalidUrl);
        }
        let mut unit: u8 = 1;
        let mut rest_start: usize = 1;
        if n > 1 {
            let code = spec.get_char(1) as u32;
            if 48 <= code && code <= 57 {
                let digit = code - 48;
                if digit < 1 || digit > 8 {
                    return Err(DeviceError::InvalidUrl);
                }
                unit = digit as u8;
                rest_start = 2;
            }
        }
        if rest_start >= n || spec.get_char(rest_start) != ':' {
            return Err(DeviceError::InvalidUrl);
        }
        let url = spec.substring_char(rest_start + 1, n);
        assert(split_prefix(spec@) == Some((unit, url@)));
        match extract_scheme(url) {
            Err(e) => Err(e),
            Ok(scheme) => match NetworkProtocol::from_str(scheme) {
                None => Err(DeviceError::UnsupportedProtocol),
                Some(protocol) => Ok(NetworkUrl { unit, url: String::from_str(url), protocol }),
            },
        }
    }

    /// The protocol scheme of the URL (e.g. "http", "https", "tcp"): the text before
    /// its first "://"; `InvalidProtocol` when the URL has no "://".
    pub fn scheme(&self) -> (r: DeviceResult<&str>)
        ensures
            match r {
                Ok(s) => scheme_of(self.url@) == Some(s@),
                Err(e) => scheme_of(self.url@) is None && e == DeviceError::InvalidProtocol,
            },
    {
        match extract_scheme(self.url.as_str()) {
            Ok(s) => Ok(s),
            Err(_) => Err(DeviceError::InvalidProtocol),
        }
    }

    /// The protocol that the URL was parsed with.
    pub fn protocol(&self) -> (r: NetworkProtocol)
        ensures
            r == self@.protocol,
    {
        self.protocol
    }

    /// Whether two URLs have the same protocol and the same host and port.
    pub fn has_same_base_url(&self, other: &NetworkUrl) -> (r: bool)
        ensures
            r == same_base(self@, other@),
    {
        let a = base_str(self.url.as_str());
        let b = base_str(other.url.as_str());
        self.protocol == other.protocol && str_eq(a, b)
    }
}

} // verus!
