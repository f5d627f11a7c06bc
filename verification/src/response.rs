//! Captured HTTP responses.
//!
//! The idempotency store persists the full response of a completed publish
//! command — status code, ordered header pairs (names with raw byte
//! values), and raw body — and replays it verbatim. This module holds that
//! captured form and the constructors the handlers use.

use vstd::prelude::*;

verus! {

/// One response header: a name and its raw byte value.
#[derive(Debug)]
pub struct HeaderPair {
    pub name: String,
    pub value: Vec<u8>,
}

/// Mathematical form of a header pair.
#[verifier::ext_equal]
pub struct HeaderModel {
    pub name: Seq<char>,
    pub value: Seq<u8>,
}

impl View for HeaderPair {
    type V = HeaderModel;

    open spec fn view(&self) -> HeaderModel {
        HeaderModel { name: self.name@, value: self.value@ }
    }
}

/// A complete captured HTTP response: status code, ordered headers
/// (multi-valued names preserved), and raw body bytes.
#[derive(Debug)]
pub struct CapturedResponse {
    pub status: u16,
    pub headers: Vec<HeaderPair>,
    pub body: Vec<u8>,
}

/// Mathematical form of a captured response.
#[verifier::ext_equal]
pub struct ResponseModel {
    pub status: u16,
    pub headers: Seq<HeaderModel>,
    pub body: Seq<u8>,
}

impl View for CapturedResponse {
    type V = ResponseModel;

    open spec fn view(&self) -> ResponseModel {
        ResponseModel {
            status: self.status,
            headers: self.headers@.map_values(|h: HeaderPair| h@),
            body: self.body@,
        }
    }
}

/// The bytes of an ASCII string, one byte per character.
pub open spec fn ascii_bytes(s: Seq<char>) -> Seq<u8> {
    Seq::new(s.len(), |i: int| s[i] as u8)
}

/// The UTF-8 bytes of an ASCII string.
pub fn str_to_bytes(s: &str) -> (r: Vec<u8>)
    requires
        vstd::string::is_ascii(s),
    ensures
        r@ == ascii_bytes(s@),
{
    proof {
        vstd::string::is_ascii_spec_bytes(s);
    }
    let r = s.as_bytes_vec();
    assert(r@ =~= ascii_bytes(s@));
    r
}

/// An exact copy of a byte vector.
fn copy_bytes(v: &Vec<u8>) -> (r: Vec<u8>)
    ensures
        r@ == v@,
{
    let mut r: Vec<u8> = Vec::new();
    let mut i: usize = 0;
    while i < v.len()
        invariant
            i <= v.len(),
            r@ =~= v@.take(i as int),
        decreases v.len() - i,
    {
        r.push(v[i]);
        i = i + 1;
    }
    assert(r@ =~= v@);
    r
}

impl HeaderPair {
    /// An exact copy of this header pair.
    pub fn duplicate(&self) -> (r: HeaderPair)
        ensures
            r@ == self@,
    {
        HeaderPair { name: self.name.clone(), value: copy_bytes(&self.value) }
    }
}

impl CapturedResponse {
    /// An exact copy of this response.
    pub fn duplicate(&self) -> (r: CapturedResponse)
        ensures
            r@ == self@,
    {
        let mut headers: Vec<HeaderPair> = Vec::new();
        let mut i: usize = 0;
        while i < self.headers.len()
            invariant
                i <= self.headers.len(),
                headers@.len() == i,
                forall|j: int| 0 <= j < i ==> headers@[j]@ == self.headers@[j]@,
            decreases self.headers.len() - i,
        {
            headers.push(self.headers[i].duplicate());
            i = i + 1;
        }
        let r = CapturedResponse {
            status: self.status,
            headers,
            body: copy_bytes(&self.body),
        };
        assert(r@.headers =~= self@.headers);
        assert(r@ =~= self@);
        r
    }

    /// Replace the body, keeping status and headers.
    pub fn set_body(self, body: Vec<u8>) -> (r: CapturedResponse)
        ensures
            r@.status == self@.status,
            r@.headers == self@.headers,
            r@.body == body@,
    {
        CapturedResponse { status: self.status, headers: self.headers, body }
    }

    /// Whether two responses are byte-identical: same status, the same
    /// headers in the same order, and the same body.
    pub fn matches(&self, other: &CapturedResponse) -> (r: bool)
        ensures
            r == (self@ == other@),
    {
        if self.status != other.status {
            return false;
        }
        if self.headers.len() != other.headers.len() {
            assert(self@.headers.len() != other@.headers.len());
            return false;
        }
        if self.body.len() != other.body.len() {
            return false;
        }
        let mut i: usize = 0;
        while i < self.headers.len()
            invariant
                i <= self.headers.len(),
                self.headers.len() == other.headers.len(),
                self@.status == other@.status,
                self@.body.len() == other@.body.len(),
                forall|j: int| 0 <= j < i ==> self@.headers[j] == other@.headers[j],
            decreases self.headers.len() - i,
        {
            if !(self.headers[i].name == other.headers[i].name) {
                assert(self@.headers[i as int].name != other@.headers[i as int].name);
                return false;
            }
            let sv = &self.headers[i].value;
            let ov = &other.headers[i].value;
            if sv.len() != ov.len() {
                assert(self@.headers[i as int].value.len() != other@.headers[
                    i as int
                ].value.len());
                return false;
            }
            let mut k: usize = 0;
            while k < sv.len()
                invariant
                    i < self.headers.len() == other.headers.len(),
                    k <= sv.len(),
                    sv.len() == ov.len(),
                    sv == &self.headers[i as int].value,
                    ov == &other.headers[i as int].value,
                    forall|j: int| 0 <= j < k ==> sv@[j] == ov@[j],
                decreases sv.len() - k,
            {
                if sv[k] != ov[k] {
                    assert(self@.headers[i as int].value[k as int] != other@.headers[
                        i as int
                    ].value[k as int]);
                    return false;
                }
                k = k + 1;
            }
            assert(self@.headers[i as int].value =~= other@.headers[i as int].value);
            assert(self@.headers[i as int] =~= other@.headers[i as int]);
            i = i + 1;
        }
        let mut k: usize = 0;
        while k < self.body.len()
            invariant
                k <= self.body.len(),
                self.body.len() == other.body.len(),
                self@.status == other@.status,
                self@.headers =~= other@.headers,
                forall|j: int| 0 <= j < k ==> self@.body[j] == other@.body[j],
            decreases self.body.len() - k,
        {
            if self.body[k] != other.body[k] {
                return false;
            }
            k = k + 1;
        }
        assert(self@.body =~= other@.body);
        assert(self@ =~~= other@);
        true
    }
}

/// The `Location` header name.
pub open spec fn location_header_name() -> Seq<char> {
    "Location"@
}

/// Model of a 303 See Other redirect to `location` with an empty body.
pub open spec fn see_other_model(location: Seq<char>) -> ResponseModel {
    ResponseModel {
        status: 303,
        headers: seq![HeaderModel { name: location_header_name(), value: ascii_bytes(location) }],
        body: Seq::empty(),
    }
}

/// A 303 See Other redirect to the given location.
pub fn e303_see_other(location: &str) -> (r: CapturedResponse)
    requires
        vstd::string::is_ascii(location),
    ensures
        r@ == see_other_model(location@),
{
    let name = String::from_str("Location");
    let value = str_to_bytes(location);
    let mut headers: Vec<HeaderPair> = Vec::new();
    headers.push(HeaderPair { name, value });
    let r = CapturedResponse { status: 303, headers, body: Vec::new() };
    assert(r@ =~= see_other_model(location@));
    r
}

/// Model of an empty response with the given status code.
pub open spec fn empty_response_model(status: u16) -> ResponseModel {
    ResponseModel { status, headers: Seq::empty(), body: Seq::empty() }
}

/// An empty 200 OK response, as the health check endpoints return.
pub fn health_check() -> (r: CapturedResponse)
    ensures
        r@ == empty_response_model(200),
{
    let r = CapturedResponse { status: 200, headers: Vec::new(), body: Vec::new() };
    assert(r@ =~= empty_response_model(200));
    r
}

/// An empty 200 OK response, as the health check endpoints return.
pub fn healthcheck() -> (r: CapturedResponse)
    ensures
        r@ == empty_response_model(200),
{
    health_check()
}

} // verus!
