//! HTTP requests and responses as the exchange clients build and read them.

use vstd::prelude::*;
use crate::json::{JsonValue, json_text};
use crate::signing::{form_text, form_urlencode, pair_views};
use crate::str_map::StrMap;

verus! {

#[derive(Clone, Copy, Debug, PartialEq, Eq, Structural)]
pub enum HttpMethod {
    Get,
    Post,
    Put,
    Delete,
}

pub open spec fn method_text(m: HttpMethod) -> Seq<char> {
    match m {
        HttpMethod::Get => "GET"@,
        HttpMethod::Post => "POST"@,
        HttpMethod::Put => "PUT"@,
        HttpMethod::Delete => "DELETE"@,
    }
}

impl HttpMethod {
    /// The method's name (`method.as_str()`).
    pub fn as_str(&self) -> (r: &'static str)
        ensures
            r@ == method_text(*self),
    {
        match self {
            HttpMethod::Get => "GET",
            HttpMethod::Post => "POST",
            HttpMethod::Put => "PUT",
            HttpMethod::Delete => "DELETE",
        }
    }
}

/// The query string of a request: the parameters form-encoded, none when there are none.
pub open spec fn query_text(params: Option<Seq<(String, String)>>) -> Option<Seq<char>> {
    match params {
        Some(p) => if p.len() == 0 {
            None
        } else {
            Some(form_text(pair_views(p)))
        },
        None => None,
    }
}

/// An HTTP request to an exchange. Header names are lower case; the query string and
/// the body are kept next to the parameters and the JSON document they came from.
#[derive(Debug)]
pub struct HttpRequest {
    pub base_url: String,
    pub method: HttpMethod,
    pub path: String,
    pub headers: StrMap,
    pub query_params: Option<Vec<(String, String)>>,
    pub query_string: Option<String>,
    pub json_payload: Option<JsonValue>,
    pub payload: Option<String>,
}

pub open spec fn opt_view(s: Option<String>) -> Option<Seq<char>> {
    match s {
        Some(t) => Some(t@),
        None => None,
    }
}

pub open spec fn opt_params(p: Option<Vec<(String, String)>>) -> Option<Seq<(String, String)>> {
    match p {
        Some(v) => Some(v@),
        None => None,
    }
}

impl HttpRequest {
    /// A request with the query string made from the parameters and the body from the JSON document.
    pub fn new(
        base_url: &str,
        method: HttpMethod,
        path: &str,
        query_params: Option<Vec<(String, String)>>,
        json_payload: Option<JsonValue>,
    ) -> (r: HttpRequest)
        ensures
            r.base_url@ == base_url@,
            r.method == method,
            r.path@ == path@,
            r.headers.entries@.len() == 0,
            opt_params(r.query_params) == opt_params(query_params),
            opt_view(r.query_string) == query_text(opt_params(query_params)),
            r.json_payload == json_payload,
            match json_payload {
                Some(j) => r.payload matches Some(p) && p@ == json_text(j),
                None => r.payload is None,
            },
    {
        let query_string = match &query_params {
            Some(p) => if p.len() == 0 {
                None
            } else {
                Some(form_urlencode(p))
            },
            None => None,
        };
        let payload = match &json_payload {
            Some(j) => Some(j.to_text()),
            None => None,
        };
        HttpRequest {
            base_url: crate::text::string_from(base_url),
            method,
            path: crate::text::string_from(path),
            headers: StrMap::new(),
            query_params,
            query_string,
            json_payload,
            payload,
        }
    }
}

/// An HTTP response to a request, with the body decoded as JSON where it is JSON, and
/// the error code and message that an exchange client found in it.
#[derive(Debug)]
pub struct HttpResponse {
    pub http_request: HttpRequest,
    pub status: u16,
    pub body: String,
    pub json_payload: Option<JsonValue>,
    pub error_code: Option<String>,
    pub error_message: Option<String>,
}

pub open spec fn status_is_success(status: u16) -> bool {
    200 <= status < 300
}

impl HttpResponse {
    /// Whether the status is 2xx (`status.is_success()`).
    pub fn is_status_success(&self) -> (r: bool)
        ensures
            r == status_is_success(self.status),
    {
        200 <= self.status && self.status < 300
    }
}

/// Whether text can be an HTTP header value: tabs and visible characters, no other
/// control characters (`HeaderValue::from_str` refuses those).
pub open spec fn header_value_ok(s: Seq<char>) -> bool {
    forall|i: int| 0 <= i < s.len() ==> (s[i] == '\t' || (' ' <= #[trigger] s[i] && s[i] != '\x7f'))
}

/// The request's query string, or empty.
pub open spec fn query_or_empty(r: HttpRequest) -> Seq<char> {
    match r.query_string {
        Some(q) => q@,
        None => Seq::empty(),
    }
}

/// The request's body, or empty.
pub open spec fn payload_or_empty(r: HttpRequest) -> Seq<char> {
    match r.payload {
        Some(p) => p@,
        None => Seq::empty(),
    }
}

impl HttpRequest {
    /// A request with no parameters and no body.
    pub open spec fn is_plain(self, base_url: Seq<char>, method: HttpMethod, path: Seq<char>) -> bool {
        &&& self.base_url@ == base_url
        &&& self.method == method
        &&& self.path@ == path
        &&& self.headers.entries@.len() == 0
        &&& self.query_params is None
        &&& self.query_string is None
        &&& self.json_payload is None
        &&& self.payload is None
    }

    /// The query string, or empty.
    pub fn query_or_empty(&self) -> (r: String)
        ensures
            r@ == query_or_empty(*self),
    {
        match &self.query_string {
            Some(q) => q.clone(),
            None => String::new(),
        }
    }

    /// The body, or empty.
    pub fn payload_or_empty(&self) -> (r: String)
        ensures
            r@ == payload_or_empty(*self),
    {
        match &self.payload {
            Some(p) => p.clone(),
            None => String::new(),
        }
    }
}

/// Whether text can be an HTTP header value.
pub fn is_header_value(s: &str) -> (r: bool)
    ensures
        r == header_value_ok(s@),
{
    let n: usize = s.unicode_len();
    let mut i: usize = 0;
    while i < n
        invariant
            n == s@.len(),
            i <= n,
            forall|j: int| 0 <= j < i ==> (s@[j] == '\t' || (' ' <= #[trigger] s@[j] && s@[j] != '\x7f')),
        decreases n - i,
    {
        let c = s.get_char(i);
        if !(c == '\t' || (' ' <= c && c != '\x7f')) {
            return false;
        }
        i = i + 1;
    }
    true
}

/// Appends a parameter.
pub fn push_pair(pairs: &mut Vec<(String, String)>, name: &str, value: &str)
    ensures
        pair_views(final(pairs)@) == pair_views(old(pairs)@).push((name@, value@)),
{
    let ghost before = pairs@;
    pairs.push((crate::text::string_from(name), crate::text::string_from(value)));
    assert(pair_views(pairs@) =~= pair_views(before).push((name@, value@)));
}

/// A request whose query parameters are the pairs, with the query string made from them.
pub open spec fn has_query(r: HttpRequest, pairs: Seq<(Seq<char>, Seq<char>)>) -> bool {
    &&& r.query_params matches Some(p) && pair_views(p@) == pairs
    &&& opt_view(r.query_string) == if pairs.len() == 0 {
        None::<Seq<char>>
    } else {
        Some(form_text(pairs))
    }
}

/// A request whose body is the JSON object with the pairs as its string members.
pub open spec fn has_json_body(r: HttpRequest, pairs: Seq<(Seq<char>, Seq<char>)>) -> bool {
    &&& r.json_payload is Some
    &&& r.payload matches Some(p) && p@ == crate::json::str_object_text(pairs)
}

/// A request to `base_url` with the method and path, no headers, and the query
/// parameters in order.
pub fn query_request(base_url: &str, method: HttpMethod, path: &str, pairs: Vec<(String, String)>) -> (r: HttpRequest)
    ensures
        r.base_url@ == base_url@,
        r.method == method,
        r.path@ == path@,
        r.headers.entries@.len() == 0,
        has_query(r, pair_views(pairs@)),
        r.json_payload is None,
        r.payload is None,
{
    let ghost pv = pair_views(pairs@);
    let r = HttpRequest::new(base_url, method, path, Some(pairs), None);
    assert(pv.len() == pairs@.len());
    r
}

/// A request to `base_url` with the method and path, no headers, no query, and the
/// JSON object of the pairs as its body.
pub fn json_request(base_url: &str, method: HttpMethod, path: &str, pairs: &Vec<(String, String)>) -> (r: HttpRequest)
    ensures
        r.base_url@ == base_url@,
        r.method == method,
        r.path@ == path@,
        r.headers.entries@.len() == 0,
        r.query_params is None,
        r.query_string is None,
        has_json_body(r, pair_views(pairs@)),
{
    let body = crate::json::str_object(pairs);
    HttpRequest::new(base_url, method, path, None, Some(body))
}

} // verus!
