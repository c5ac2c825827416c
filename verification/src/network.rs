//! Outbound requests: the request and response values, and the network
//! manager's per-domain admission control.
//!
//! The manager never performs a transfer itself. It decides whether a request
//! may start (`begin_request`), and when the transfer is over it releases the
//! slot and maps the outcome into one response shape (`finish_request`,
//! `abort_request`).

use vstd::hash_map::StringHashMap;
use vstd::prelude::*;
use vstd::string::StrSliceExecFns;
use vstd::string::StringExecFns;
use vstd::utf8::{decode_utf8, encode_utf8, valid_utf8};
use crate::errors::NetworkError;
use crate::registry::StringMap;

verus! {

/// A JSON document of `serde_json`, carried through unread.
#[verifier::external_type_specification]
#[verifier::external_body]
pub struct ExJsonValue(serde_json::Value);

/// The failure of `serde_json` to make or read a document.
#[verifier::external_type_specification]
#[verifier::external_body]
pub struct ExJsonError(serde_json::Error);

/// The failure of `String::from_utf8`.
#[verifier::external_type_specification]
#[verifier::external_body]
pub struct ExFromUtf8Error(std::string::FromUtf8Error);

/// What `reqwest::header::HeaderName::from_str` makes of a header name: the
/// normalised name, or `None` where it rejects the text.
pub uninterp spec fn header_name_of(key: Seq<char>) -> Option<Seq<char>>;

/// `reqwest::header::HeaderName::from_str`, followed by `as_str` on the name
/// it accepted. The result is the named `header_name_of`: the name in the
/// form in which the header map would hold it, or `None` for a rejected text.
#[verifier::external_body]
fn parse_header_name(key: &str) -> (name: Option<String>)
    ensures
        match name {
            Some(n) => header_name_of(key@) == Some(n@),
            None => header_name_of(key@) is None,
        },
{
    match <reqwest::header::HeaderName as std::str::FromStr>::from_str(key) {
        Ok(name) => Some(name.as_str().to_string()),
        Err(_) => None,
    }
}

/// A byte that may stand in a header value: not a control character, except
/// for the tabulator.
pub open spec fn header_value_byte(b: u8) -> bool {
    b >= 32 && b != 127 || b == 9
}

/// Every byte of the text's UTF-8 form may stand in a header value.
pub open spec fn header_value_ok(value: Seq<char>) -> bool {
    forall|i: int|
        0 <= i < encode_utf8(value).len() ==> header_value_byte(#[trigger] encode_utf8(value)[i])
}

/// `reqwest::header::HeaderValue::from_str`, asked only whether it accepts
/// the text: it does exactly when every byte is 32 or above and not 127, or
/// is the tabulator.
#[verifier::external_body]
fn header_value_is_valid(value: &str) -> (ok: bool)
    ensures
        ok == header_value_ok(value@),
{
    reqwest::header::HeaderValue::from_str(value).is_ok()
}

/// `String::from_utf8`: the text that the bytes encode, or the failure where
/// they are not valid UTF-8.
#[verifier::external_body]
fn string_from_utf8(bytes: Vec<u8>) -> (r: Result<String, std::string::FromUtf8Error>)
    ensures
        match r {
            Ok(s) => valid_utf8(bytes@) && s@ == decode_utf8(bytes@),
            Err(_) => !valid_utf8(bytes@),
        },
{
    String::from_utf8(bytes)
}

/// The headers after a header was parsed: where the name was accepted, as
/// `name`, and the value is acceptable, the value stands under the name, in
/// place of any earlier value; otherwise nothing changes.
pub open spec fn headers_after(
    headers: Map<Seq<char>, Seq<char>>,
    name: Option<Seq<char>>,
    value: Seq<char>,
    value_ok: bool,
) -> Map<Seq<char>, Seq<char>> {
    match name {
        Some(n) => if value_ok {
            headers.insert(n, value)
        } else {
            headers
        },
        None => headers,
    }
}

/// The headers after `value` was given for `key`: what `headers_after` makes
/// of the normalised name of `key` and of whether `value` is acceptable.
pub open spec fn headers_with(headers: Map<Seq<char>, Seq<char>>, key: Seq<char>, value: Seq<char>)
    -> Map<Seq<char>, Seq<char>> {
    headers_after(headers, header_name_of(key), value, header_value_ok(value))
}

/// The characters of a name, if there is one.
pub open spec fn name_text(name: Option<String>) -> Option<Seq<char>> {
    match name {
        Some(n) => Some(n@),
        None => None,
    }
}

/// The method of an HTTP request.
#[derive(Debug, Clone, Copy, PartialEq, Eq, Structural)]
pub enum Method {
    Get,
    Post,
    Put,
    Delete,
    Head,
    Options,
    Connect,
    Patch,
    Trace,
}

impl Method {
    /// The method's name on the wire.
    pub open spec fn name(self) -> Seq<char> {
        match self {
            Method::Get => "GET"@,
            Method::Post => "POST"@,
            Method::Put => "PUT"@,
            Method::Delete => "DELETE"@,
            Method::Head => "HEAD"@,
            Method::Options => "OPTIONS"@,
            Method::Connect => "CONNECT"@,
            Method::Patch => "PATCH"@,
            Method::Trace => "TRACE"@,
        }
    }

    /// The method's name on the wire, as a string slice.
    pub fn as_str(&self) -> (s: &'static str)
        ensures
            s@ == self.name(),
    {
        match self {
            Method::Get => "GET",
            Method::Post => "POST",
            Method::Put => "PUT",
            Method::Delete => "DELETE",
            Method::Head => "HEAD",
            Method::Options => "OPTIONS",
            Method::Connect => "CONNECT",
            Method::Patch => "PATCH",
            Method::Trace => "TRACE",
        }
    }
}

/// A request to send.
#[derive(Debug)]
pub struct NetworkRequest {
    pub url: String,
    pub method: Method,
    /// The headers, each under its normalised name.
    pub headers: StringMap<String>,
    pub body: Option<Vec<u8>>,
    pub timeout_ms: Option<u64>,
    /// A JSON payload; where present it is sent in place of `body`.
    pub json: Option<serde_json::Value>,
}

/// What a request carries as its payload.
pub enum Payload {
    Json(serde_json::Value),
    Bytes(Vec<u8>),
    Empty,
}

impl NetworkRequest {
    /// A `GET` request for `url` without headers, payload or timeout.
    pub fn new(url: &str) -> (r: Self)
        ensures
            r.url@ == url@,
            r.method == Method::Get,
            r.headers.wf(),
            r.headers@ == Map::<Seq<char>, String>::empty(),
            r.header_texts() == Map::<Seq<char>, Seq<char>>::empty(),
            r.body is None,
            r.timeout_ms is None,
            r.json is None,
    {
        let r = Self {
            url: String::from_str(url),
            method: Method::Get,
            headers: StringMap::new(),
            body: None,
            timeout_ms: None,
            json: None,
        };
        assert(r.header_texts() =~= Map::<Seq<char>, Seq<char>>::empty());
        r
    }

    /// The same request with `method`.
    pub fn method(self, method: Method) -> (r: Self)
        ensures
            r == (Self { method, ..self }),
    {
        let mut r = self;
        r.method = method;
        r
    }

    /// The headers as plain text, each value under its normalised name.
    pub open spec fn header_texts(self) -> Map<Seq<char>, Seq<char>> {
        self.headers@.map_values(|v: String| v@)
    }

    /// The same request with one more header, if both parts are acceptable.
    pub fn header(self, key: &str, value: &str) -> (r: Self)
        requires
            self.headers.wf(),
        ensures
            r.headers.wf(),
            r.url == self.url,
            r.method == self.method,
            r.body == self.body,
            r.timeout_ms == self.timeout_ms,
            r.json == self.json,
            r.header_texts() == headers_with(self.header_texts(), key@, value@),
    {
        let name = parse_header_name(key);
        let value_ok = header_value_is_valid(value);
        self.header_parsed(name, value, value_ok)
    }

    /// The same request with the header that was parsed: `name` is the
    /// normalised name, or `None` for a name that was rejected, and
    /// `value_ok` says whether `value` is acceptable. The value stands under
    /// the name, in place of any earlier value, where both were accepted;
    /// otherwise the request is as it was.
    pub fn header_parsed(self, name: Option<String>, value: &str, value_ok: bool) -> (r: Self)
        requires
            self.headers.wf(),
        ensures
            r.headers.wf(),
            r.url == self.url,
            r.method == self.method,
            r.body == self.body,
            r.timeout_ms == self.timeout_ms,
            r.json == self.json,
            r.header_texts() == headers_after(
                self.header_texts(),
                name_text(name),
                value@,
                value_ok,
            ),
    {
        let mut r = self;
        match name {
            Some(n) => {
                if value_ok {
                    r.headers.insert(n, String::from_str(value));
                    assert(r.header_texts() =~= self.header_texts().insert(n@, value@));
                }
            },
            None => {},
        }
        r
    }

    /// The same request, to be given up after `ms` milliseconds.
    pub fn timeout(self, ms: u64) -> (r: Self)
        ensures
            r == (Self { timeout_ms: Some(ms), ..self }),
    {
        let mut r = self;
        r.timeout_ms = Some(ms);
        r
    }

    /// The same request with `body` as its bytes.
    pub fn body(self, body: Vec<u8>) -> (r: Self)
        ensures
            r == (Self { body: Some(body), ..self }),
    {
        let mut r = self;
        r.body = Some(body);
        r
    }

    /// The same request with a JSON payload, where `value` is a document;
    /// a failed conversion leaves the request as it was.
    pub fn json(self, value: Result<serde_json::Value, serde_json::Error>) -> (r: Self)
        ensures
            match value {
                Ok(v) => r == (Self { json: Some(v), ..self }),
                Err(_) => r == self,
            },
    {
        let mut r = self;
        match value {
            Ok(v) => {
                r.json = Some(v);
            },
            Err(_) => {},
        }
        r
    }

    /// What is sent: the JSON payload if there is one, else the body.
    pub open spec fn payload_spec(self) -> Payload {
        match self.json {
            Some(v) => Payload::Json(v),
            None => match self.body {
                Some(b) => Payload::Bytes(b),
                None => Payload::Empty,
            },
        }
    }

    /// Takes the request apart into what the transport needs; the payload is
    /// the JSON document if there is one, else the body.
    pub fn into_parts(self) -> (parts: (String, Method, StringMap<String>, Option<u64>, Payload))
        ensures
            parts.0 == self.url,
            parts.1 == self.method,
            parts.2 == self.headers,
            parts.3 == self.timeout_ms,
            parts.4 == self.payload_spec(),
    {
        let payload = match self.json {
            Some(v) => Payload::Json(v),
            None => match self.body {
                Some(b) => Payload::Bytes(b),
                None => Payload::Empty,
            },
        };
        (self.url, self.method, self.headers, self.timeout_ms, payload)
    }
}

/// What came back for a request, or why nothing did.
#[derive(Debug, Clone)]
pub struct NetworkResponse {
    pub status: u16,
    /// The response headers in the order received, each value by its bytes.
    pub headers: Vec<(String, Vec<u8>)>,
    pub body: Vec<u8>,
    pub error: Option<String>,
}

/// The status that stands for a request that never got a response.
pub const STATUS_INTERNAL_SERVER_ERROR: u16 = 500;

impl NetworkResponse {
    /// A status in the 200s and no error.
    pub open spec fn success(self) -> bool {
        200 <= self.status < 300 && self.error is None
    }

    /// Whether the request went through: a status in the 200s and no error.
    pub fn is_success(&self) -> (b: bool)
        ensures
            b == self.success(),
    {
        200 <= self.status && self.status < 300 && self.error.is_none()
    }

    /// The body as text, if it is valid UTF-8.
    pub fn text(&self) -> (r: Result<String, std::string::FromUtf8Error>)
        ensures
            match r {
                Ok(s) => valid_utf8(self.body@) && s@ == decode_utf8(self.body@),
                Err(_) => !valid_utf8(self.body@),
            },
    {
        let bytes = self.body.clone();
        assert(bytes@ =~= self.body@);
        string_from_utf8(bytes)
    }
}

/// How a transfer ended.
#[derive(Debug)]
pub enum TransportOutcome {
    /// A response arrived. `body` is its bytes, or the reason why they could
    /// not be read.
    Response { status: u16, headers: Vec<(String, Vec<u8>)>, body: Result<Vec<u8>, String> },
    /// No response arrived: the connection failed or the time ran out. The
    /// variant carries the reason.
    Failed(String),
}

/// The response that stands for the outcome of a transfer.
pub open spec fn response_matches(outcome: TransportOutcome, r: NetworkResponse) -> bool {
    match outcome {
        TransportOutcome::Response { status, headers, body } => {
            &&& r.status == status
            &&& r.headers == headers
            &&& match body {
                Ok(bytes) => r.body == bytes && r.error is None,
                Err(cause) => r.body@ == Seq::<u8>::empty() && r.error is Some && r.error->0@
                    == "Failed to read response body: "@ + cause@,
            }
        },
        TransportOutcome::Failed(cause) => {
            &&& r.status == STATUS_INTERNAL_SERVER_ERROR
            &&& r.headers@ == Seq::<(String, Vec<u8>)>::empty()
            &&& r.body@ == Seq::<u8>::empty()
            &&& r.error is Some
            &&& r.error->0@ == "Request failed: "@ + cause@
        },
    }
}

/// Maps the outcome of a transfer into the one response shape.
pub fn response_of(outcome: TransportOutcome) -> (r: NetworkResponse)
    ensures
        response_matches(outcome, r),
{
    match outcome {
        TransportOutcome::Response { status, headers, body } => match body {
            Ok(bytes) => NetworkResponse { status, headers, body: bytes, error: None },
            Err(cause) => {
                let mut text = String::from_str("Failed to read response body: ");
                text.append(cause.as_str());
                NetworkResponse { status, headers, body: Vec::new(), error: Some(text) }
            },
        },
        TransportOutcome::Failed(cause) => {
            let mut text = String::from_str("Request failed: ");
            text.append(cause.as_str());
            NetworkResponse {
                status: STATUS_INTERNAL_SERVER_ERROR,
                headers: Vec::new(),
                body: Vec::new(),
                error: Some(text),
            }
        },
    }
}

/// The text `://` starts at position `i` of `s`.
pub open spec fn scheme_mark_at(s: Seq<char>, i: int) -> bool {
    0 <= i && i + 3 <= s.len() && s[i] == ':' && s[i + 1] == '/' && s[i + 2] == '/'
}

/// The first position at or after `from` where `://` starts, or the length
/// of `s` where there is none.
pub open spec fn first_scheme_mark(s: Seq<char>, from: int) -> int
    decreases s.len() - from,
{
    if from < 0 || from + 3 > s.len() {
        s.len() as int
    } else if scheme_mark_at(s, from) {
        from
    } else {
        first_scheme_mark(s, from + 1)
    }
}

/// The first position in `from..to` that holds `/`, or `to` where there is
/// none.
pub open spec fn first_slash(s: Seq<char>, from: int, to: int) -> int
    decreases to - from,
{
    if from < 0 || from >= to || to > s.len() {
        to
    } else if s[from] == '/' {
        from
    } else {
        first_slash(s, from + 1, to)
    }
}

/// Where the domain of `url` starts: behind the first `://`, or at the
/// beginning where there is none.
pub open spec fn domain_start(url: Seq<char>) -> int {
    let mark = first_scheme_mark(url, 0);
    if mark < url.len() {
        mark + 3
    } else {
        0
    }
}

/// Where the search for the domain's end stops: at the next `://` behind the
/// first, or at the end of `url`.
pub open spec fn domain_limit(url: Seq<char>) -> int {
    let mark = first_scheme_mark(url, 0);
    if mark < url.len() {
        first_scheme_mark(url, mark + 3)
    } else {
        url.len() as int
    }
}

/// The domain of `url`: the text behind the first `://` (the whole text where
/// there is none), up to the next `://`, cut at its first `/`.
pub open spec fn domain_of(url: Seq<char>) -> Seq<char> {
    url.subrange(domain_start(url), first_slash(url, domain_start(url), domain_limit(url)))
}

/// The result of `first_scheme_mark` lies between `from` and the end, and is
/// a position where `://` starts unless it is the end.
pub proof fn lemma_first_scheme_mark(s: Seq<char>, from: int)
    requires
        0 <= from <= s.len(),
    ensures
        from <= first_scheme_mark(s, from) <= s.len(),
        first_scheme_mark(s, from) < s.len() ==> scheme_mark_at(s, first_scheme_mark(s, from)),
        forall|i: int| from <= i < first_scheme_mark(s, from) ==> !scheme_mark_at(s, i),
    decreases s.len() - from,
{
    if from + 3 > s.len() {
    } else if scheme_mark_at(s, from) {
    } else {
        lemma_first_scheme_mark(s, from + 1);
    }
}

/// The first position at or after `from` where `://` starts in `s`, or `n`.
fn find_scheme_mark(s: &str, n: usize, from: usize) -> (r: usize)
    requires
        n == s@.len(),
        from <= n,
    ensures
        r == first_scheme_mark(s@, from as int),
        from <= r <= n,
{
    let mut i: usize = from;
    while n - i >= 3
        invariant
            n == s@.len(),
            from <= i <= n,
            first_scheme_mark(s@, from as int) == first_scheme_mark(s@, i as int),
        decreases n - i,
    {
        if s.get_char(i) == ':' && s.get_char(i + 1) == '/' && s.get_char(i + 2) == '/' {
            return i;
        }
        i = i + 1;
    }
    n
}

/// The first position in `from..to` of `s` that holds `/`, or `to`.
fn find_slash(s: &str, from: usize, to: usize) -> (r: usize)
    requires
        from <= to <= s@.len(),
    ensures
        r == first_slash(s@, from as int, to as int),
        from <= r <= to,
{
    let mut i: usize = from;
    while i < to
        invariant
            from <= i <= to <= s@.len(),
            first_slash(s@, from as int, to as int) == first_slash(s@, i as int, to as int),
        decreases to - i,
    {
        if s.get_char(i) == '/' {
            return i;
        }
        i = i + 1;
    }
    to
}

/// The requests in flight to domain `d` according to the counters.
pub open spec fn in_flight_of(counters: Map<Seq<char>, u32>, d: Seq<char>) -> nat {
    if counters.contains_key(d) {
        counters[d] as nat
    } else {
        0
    }
}

/// One more request to `d` may start under the ceiling `max`.
pub open spec fn admits(counters: Map<Seq<char>, u32>, max: nat, d: Seq<char>) -> bool {
    in_flight_of(counters, d) < max
}

/// The counters after a request to `d` started.
pub open spec fn after_begin(counters: Map<Seq<char>, u32>, d: Seq<char>) -> Map<Seq<char>, u32> {
    counters.insert(d, (in_flight_of(counters, d) + 1) as u32)
}

/// The counters after a request to `d` ended: one less in flight, never
/// below zero.
pub open spec fn after_finish(counters: Map<Seq<char>, u32>, d: Seq<char>) -> Map<Seq<char>, u32> {
    if counters.contains_key(d) && counters[d] > 0 {
        counters.insert(d, (counters[d] - 1) as u32)
    } else {
        counters
    }
}

/// One less, and none where there is none.
pub open spec fn one_less(n: nat) -> nat {
    if n > 0 {
        (n - 1) as nat
    } else {
        0
    }
}

/// The counters after `n` requests to `d` started one after another.
pub open spec fn after_begins(counters: Map<Seq<char>, u32>, d: Seq<char>, n: nat) -> Map<
    Seq<char>,
    u32,
>
    decreases n,
{
    if n == 0 {
        counters
    } else {
        after_begin(after_begins(counters, d, (n - 1) as nat), d)
    }
}

/// The counters after `n` requests to `d` ended one after another.
pub open spec fn after_finishes(counters: Map<Seq<char>, u32>, d: Seq<char>, n: nat) -> Map<
    Seq<char>,
    u32,
>
    decreases n,
{
    if n == 0 {
        counters
    } else {
        after_finish(after_finishes(counters, d, (n - 1) as nat), d)
    }
}

/// The proof that a request was admitted: it holds the slot that the request
/// occupies. It cannot be copied, and ending the request uses it up, so a
/// slot is released at most once.
#[derive(Debug)]
#[must_use]
pub struct Admission {
    domain: String,
}

impl Admission {
    /// The domain whose slot is held.
    pub closed spec fn domain(&self) -> Seq<char> {
        self.domain@
    }

    /// The domain whose slot is held.
    pub fn domain_name(&self) -> (d: &String)
        ensures
            d@ == self.domain(),
    {
        &self.domain
    }
}

/// The network manager: how many requests are in flight to each domain, and
/// the ceiling per domain.
pub struct NetworkManagerActor {
    connection_pool: StringHashMap<u32>,
    max_connections: usize,
}

/// The ceiling on the requests in flight to one domain.
pub const DEFAULT_MAX_CONNECTIONS: usize = 10;

impl NetworkManagerActor {
    /// The counter of each domain that has one.
    pub closed spec fn counters(&self) -> Map<Seq<char>, u32> {
        self.connection_pool@
    }

    /// The ceiling per domain.
    pub closed spec fn ceiling(&self) -> nat {
        self.max_connections as nat
    }

    /// The state is consistent: the ceiling fits a counter and no counter is
    /// above it.
    pub closed spec fn wf(&self) -> bool {
        &&& self.max_connections <= u32::MAX
        &&& forall|d: Seq<char>| #[trigger]
            self.connection_pool@.contains_key(d) ==> self.connection_pool@[d]
                <= self.max_connections
    }

    /// The requests in flight to domain `d`.
    pub open spec fn in_flight(&self, d: Seq<char>) -> nat {
        in_flight_of(self.counters(), d)
    }

    /// In a consistent manager the ceiling fits a counter, and no domain has
    /// more requests in flight than the ceiling allows.
    pub proof fn lemma_within_ceiling(&self, d: Seq<char>)
        requires
            self.wf(),
        ensures
            self.ceiling() <= u32::MAX,
            self.in_flight(d) <= self.ceiling(),
    {
        if self.connection_pool@.contains_key(d) {
        }
    }

    /// A manager with nothing in flight and the default ceiling.
    pub fn new() -> (actor: Self)
        ensures
            actor.wf(),
            actor.counters() == Map::<Seq<char>, u32>::empty(),
            actor.ceiling() == DEFAULT_MAX_CONNECTIONS,
    {
        Self { connection_pool: StringHashMap::new(), max_connections: DEFAULT_MAX_CONNECTIONS }
    }

    /// The ceiling per domain.
    pub fn max_connections(&self) -> (max: usize)
        ensures
            max == self.ceiling(),
    {
        self.max_connections
    }

    /// The number of requests in flight to `domain`.
    pub fn connections(&self, domain: &str) -> (n: u32)
        requires
            self.wf(),
        ensures
            n == self.in_flight(domain@),
    {
        match self.connection_pool.get(domain) {
            Some(count) => *count,
            None => 0,
        }
    }

    /// The domain of a URL.
    pub fn extract_domain(&self, url: &str) -> (domain: String)
        ensures
            domain@ == domain_of(url@),
    {
        let n: usize = url.unicode_len();
        let mark: usize = find_scheme_mark(url, n, 0);
        let mut start: usize = 0;
        let mut limit: usize = n;
        if mark < n {
            proof {
                lemma_first_scheme_mark(url@, 0);
            }
            start = mark + 3;
            limit = find_scheme_mark(url, n, start);
        }
        let stop: usize = find_slash(url, start, limit);
        String::from_str(url.substring_char(start, stop))
    }

    /// Decides whether a request for `url` may start. Where the domain has
    /// fewer requests in flight than the ceiling, the request is counted and
    /// admitted; otherwise it is turned away and nothing changes.
    pub fn begin_request(&mut self, url: &str) -> (r: Result<Admission, NetworkError>)
        requires
            old(self).wf(),
        ensures
            final(self).wf(),
            final(self).ceiling() == old(self).ceiling(),
            match r {
                Ok(admission) => {
                    &&& admission.domain() == domain_of(url@)
                    &&& admits(old(self).counters(), old(self).ceiling(), domain_of(url@))
                    &&& final(self).counters() == after_begin(
                        old(self).counters(),
                        domain_of(url@),
                    )
                    &&& final(self).in_flight(domain_of(url@)) == old(self).in_flight(
                        domain_of(url@),
                    ) + 1
                },
                Err(e) => {
                    &&& !admits(old(self).counters(), old(self).ceiling(), domain_of(url@))
                    &&& e matches NetworkError::TooManyConnections(domain)
                    &&& domain@ == domain_of(url@)
                    &&& final(self).counters() == old(self).counters()
                },
            },
    {
        let domain = self.extract_domain(url);
        let count: u32 = match self.connection_pool.get(domain.as_str()) {
            Some(c) => *c,
            None => 0,
        };
        if (count as usize) < self.max_connections {
            let key = domain.clone();
            self.connection_pool.insert(key, count + 1);
            Ok(Admission { domain })
        } else {
            Err(NetworkError::TooManyConnections(domain))
        }
    }

    /// Releases one slot of `domain`.
    fn release(&mut self, domain: &String)
        requires
            old(self).wf(),
        ensures
            final(self).wf(),
            final(self).ceiling() == old(self).ceiling(),
            final(self).counters() == after_finish(old(self).counters(), domain@),
    {
        let count: u32 = match self.connection_pool.get(domain.as_str()) {
            Some(c) => *c,
            None => 0,
        };
        if count > 0 {
            self.connection_pool.insert(domain.clone(), count - 1);
        }
    }

    /// Ends an admitted request whose transfer was attempted: releases its
    /// slot and maps the outcome into a response.
    pub fn finish_request(&mut self, admission: Admission, outcome: TransportOutcome) -> (r:
        NetworkResponse)
        requires
            old(self).wf(),
        ensures
            final(self).wf(),
            final(self).ceiling() == old(self).ceiling(),
            final(self).counters() == after_finish(old(self).counters(), admission.domain()),
            final(self).in_flight(admission.domain()) == one_less(
                old(self).in_flight(admission.domain()),
            ),
            response_matches(outcome, r),
    {
        self.release(&admission.domain);
        response_of(outcome)
    }

    /// Ends an admitted request for which no HTTP client could be built:
    /// releases its slot and reports the cause.
    pub fn abort_request(&mut self, admission: Admission, cause: String) -> (e: NetworkError)
        requires
            old(self).wf(),
        ensures
            final(self).wf(),
            final(self).ceiling() == old(self).ceiling(),
            final(self).counters() == after_finish(old(self).counters(), admission.domain()),
            final(self).in_flight(admission.domain()) == one_less(
                old(self).in_flight(admission.domain()),
            ),
            e == NetworkError::ClientBuild(cause),
    {
        self.release(&admission.domain);
        NetworkError::ClientBuild(cause)
    }
}

/// Admission control, as a law of the counters. From a domain with nothing
/// in flight, under a ceiling that fits a counter: each of the first `max`
/// requests is admitted and counted; the next one is not admitted; and when
/// the `max` admitted requests have ended, nothing is in flight again.
pub proof fn lemma_admission_control(counters: Map<Seq<char>, u32>, max: nat, d: Seq<char>)
    requires
        in_flight_of(counters, d) == 0,
        max <= u32::MAX,
    ensures
        forall|k: nat|
            k <= max ==> in_flight_of(#[trigger] after_begins(counters, d, k), d) == k,
        forall|k: nat| k < max ==> admits(#[trigger] after_begins(counters, d, k), max, d),
        !admits(after_begins(counters, d, max), max, d),
        in_flight_of(after_finishes(after_begins(counters, d, max), d, max), d) == 0,
{
    assert forall|k: nat| k <= max implies in_flight_of(
        #[trigger] after_begins(counters, d, k),
        d,
    ) == k by {
        lemma_begins_count(counters, d, k);
    }
    lemma_begins_count(counters, d, max);
    lemma_finishes_count(after_begins(counters, d, max), d, max);
}

/// A request that begins and ends leaves every counter as it was: under a
/// ceiling that fits a counter, the counter of an admitted request's domain
/// is back at its old value once the request has ended, and no other
/// domain's counter has changed on the way.
pub proof fn lemma_begin_finish_restores(
    counters: Map<Seq<char>, u32>,
    max: nat,
    d: Seq<char>,
    other: Seq<char>,
)
    requires
        admits(counters, max, d),
        max <= u32::MAX,
    ensures
        in_flight_of(after_begin(counters, d), d) == in_flight_of(counters, d) + 1,
        in_flight_of(after_finish(after_begin(counters, d), d), d) == in_flight_of(counters, d),
        other != d ==> in_flight_of(after_begin(counters, d), other) == in_flight_of(
            counters,
            other,
        ),
        other != d ==> in_flight_of(after_finish(after_begin(counters, d), d), other)
            == in_flight_of(counters, other),
{
}

/// After `k` begins, `k` more requests are in flight, as far as a counter
/// can count.
pub proof fn lemma_begins_count(counters: Map<Seq<char>, u32>, d: Seq<char>, k: nat)
    requires
        in_flight_of(counters, d) + k <= u32::MAX,
    ensures
        in_flight_of(after_begins(counters, d, k), d) == in_flight_of(counters, d) + k,
    decreases k,
{
    if k > 0 {
        lemma_begins_count(counters, d, (k - 1) as nat);
    }
}

/// After `k` ends, `k` fewer requests are in flight, and never fewer than
/// none.
pub proof fn lemma_finishes_count(counters: Map<Seq<char>, u32>, d: Seq<char>, k: nat)
    ensures
        in_flight_of(after_finishes(counters, d, k), d) == if in_flight_of(counters, d) >= k {
            in_flight_of(counters, d) - k
        } else {
            0
        },
    decreases k,
{
    if k > 0 {
        lemma_finishes_count(counters, d, (k - 1) as nat);
    }
}

} // verus!
