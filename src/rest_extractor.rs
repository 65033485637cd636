//! The REST adapter of the extraction contract.
//!
//! The adapter is a request template held as plain values: method, target URL,
//! headers, query parameters and body. Every configuration method returns a new
//! adapter with one part of the template replaced and every other part kept,
//! so changing the method after setting headers or query parameters loses
//! nothing. Sending the request is left to the caller that performs network
//! access; what comes back is turned into a result by [`RestExtractor::decode_json`].

use vstd::prelude::*;
use vstd::string::*;
use vstd::utf8::encode_utf8;

use crate::error::ExtractorError;
use crate::error::ExtractorResult;
use crate::extract::Extractor;
use crate::text::char_prefix;
use crate::text::decimal;
use crate::text::eq_ignore_ascii_case;
use crate::text::equal_ignoring_ascii_case;
use crate::text::is_blank;
use crate::text::is_blank_text;
use crate::text::prefix_of;
use crate::text::push_decimal;
use crate::text::trim_end_slashes;
use crate::text::trim_leading_slashes;
use crate::text::trim_start_slashes;
use crate::text::trim_trailing_slashes;

verus! {

/// Whether `c` may stand in an HTTP method token (`tchar` of RFC 9110).
pub open spec fn is_token_char(c: char) -> bool {
    ||| 'a' <= c <= 'z'
    ||| 'A' <= c <= 'Z'
    ||| '0' <= c <= '9'
    ||| c == '!' || c == '#' || c == '$' || c == '%' || c == '&' || c == '\''
    ||| c == '*' || c == '+' || c == '-' || c == '.' || c == '^' || c == '_'
    ||| c == '`' || c == '|' || c == '~'
}

/// Whether `m` is an HTTP method token: one or more token characters.
pub open spec fn method_accepted(m: Seq<char>) -> bool {
    m.len() > 0 && forall|i: int| 0 <= i < m.len() ==> is_token_char(#[trigger] m[i])
}

/// The standard base64 encoding (padded, RFC 4648 alphabet) of `bytes`.
pub uninterp spec fn base64_of(bytes: Seq<u8>) -> Seq<char>;

/// The serialization of the URL parsed from `target`; `None` when `target`
/// is not an absolute URL.
pub uninterp spec fn parsed_url(target: Seq<char>) -> Option<Seq<char>>;

/// The serialization of the URL parsed from `target` with `pairs` appended to
/// its query, form-urlencoded; `None` when `target` is not an absolute URL.
pub uninterp spec fn parsed_url_with_query(
    target: Seq<char>,
    pairs: Seq<(Seq<char>, Seq<char>)>,
) -> Option<Seq<char>>;

/// The registered reason phrase of an HTTP status code, if it has one.
pub uninterp spec fn canonical_reason_of(code: u16) -> Option<Seq<char>>;

/// The JSON value that `text` holds when it is one JSON document; otherwise
/// the description of why it is not.
pub uninterp spec fn json_decode_of(text: Seq<char>) -> Result<serde_json::Value, Seq<char>>;

/// The compact JSON text of `v`.
pub uninterp spec fn json_text_of(v: serde_json::Value) -> Seq<char>;

/// Relies on reqwest::Method::from_bytes: it accepts exactly the non-empty
/// byte strings of token characters, the standard methods among them.
#[verifier::external_body]
fn is_valid_method(m: &str) -> (r: bool)
    ensures
        r == method_accepted(m@),
{
    reqwest::Method::from_bytes(m.as_bytes()).is_ok()
}

/// Relies on base64's standard engine (`Engine::encode`).
#[verifier::external_body]
fn base64_encode(bytes: &[u8]) -> (r: String)
    ensures
        r@ == base64_of(bytes@),
{
    base64::Engine::encode(&base64::engine::general_purpose::STANDARD, bytes)
}

/// Relies on reqwest::Url::parse and the parsed URL's serialization.
#[verifier::external_body]
fn parse_url(target: &str) -> (r: Option<String>)
    ensures
        r is Some <==> parsed_url(target@) is Some,
        r is Some ==> parsed_url(target@)->0 == r->0@,
{
    reqwest::Url::parse(target).ok().map(|u| u.to_string())
}

/// Relies on reqwest::Url::parse_with_params and the parsed URL's
/// serialization.
#[verifier::external_body]
fn parse_url_with_params(target: &str, pairs: &Vec<(String, String)>) -> (r: Option<String>)
    ensures
        r is Some <==> parsed_url_with_query(target@, pairs_view(pairs@)) is Some,
        r is Some ==> parsed_url_with_query(target@, pairs_view(pairs@))->0 == r->0@,
{
    reqwest::Url::parse_with_params(target, pairs.iter()).ok().map(|u| u.to_string())
}

/// Relies on reqwest::StatusCode::from_u16 and StatusCode::canonical_reason.
/// Codes outside 100..=999 are not status codes and have no phrase.
#[verifier::external_body]
fn canonical_reason(code: u16) -> (r: Option<String>)
    ensures
        r is Some <==> canonical_reason_of(code) is Some,
        r is Some ==> canonical_reason_of(code)->0 == r->0@,
        !(100 <= code <= 999) ==> r is None,
{
    reqwest::StatusCode::from_u16(code).ok().and_then(|s| s.canonical_reason()).map(|p| p.to_string())
}

/// Relies on serde_json::from_str into a serde_json::Value; a failure is
/// rendered by the error's Display.
#[verifier::external_body]
fn parse_json(text: &str) -> (r: Result<serde_json::Value, String>)
    ensures
        r is Ok <==> json_decode_of(text@) is Ok,
        r is Ok ==> json_decode_of(text@) == Ok::<serde_json::Value, Seq<char>>(r->Ok_0),
        r is Err ==> json_decode_of(text@) == Err::<serde_json::Value, Seq<char>>(r->Err_0@),
{
    serde_json::from_str::<serde_json::Value>(text).map_err(|e| e.to_string())
}

/// Relies on the Display of serde_json::Value: the compact JSON text of `v`.
#[verifier::external_body]
fn json_text(v: &serde_json::Value) -> (r: String)
    ensures
        r@ == json_text_of(*v),
{
    v.to_string()
}

/// The plain-value form of a list of string pairs.
pub open spec fn pairs_view(pairs: Seq<(String, String)>) -> Seq<(Seq<char>, Seq<char>)> {
    pairs.map_values(|p: (String, String)| (p.0@, p.1@))
}

/// The plain-value form of a list of borrowed string pairs.
pub open spec fn str_pairs_view(pairs: Seq<(&str, &str)>) -> Seq<(Seq<char>, Seq<char>)> {
    pairs.map_values(|p: (&str, &str)| (p.0@, p.1@))
}

/// The target URL of an adapter made from `base` and `endpoint`: the two
/// joined by exactly one `'/'`.
pub open spec fn joined_url(base: Seq<char>, endpoint: Seq<char>) -> Seq<char> {
    trim_end_slashes(base) + seq!['/'] + trim_start_slashes(endpoint)
}

/// Whether two header names name the same header (names are compared up to
/// ASCII case).
pub open spec fn same_header(a: Seq<char>, b: Seq<char>) -> bool {
    eq_ignore_ascii_case(a, b)
}

/// Whether no two headers of `hs` share a name.
pub open spec fn header_names_distinct(hs: Seq<(Seq<char>, Seq<char>)>) -> bool {
    forall|i: int, j: int|
        0 <= i < hs.len() && 0 <= j < hs.len() && i != j ==> !same_header(
            #[trigger] hs[i].0,
            #[trigger] hs[j].0,
        )
}

/// Whether `hs` has a header named `name`.
pub open spec fn has_header(hs: Seq<(Seq<char>, Seq<char>)>, name: Seq<char>) -> bool {
    exists|i: int| 0 <= i < hs.len() && same_header(#[trigger] hs[i].0, name)
}

/// `hs` with the header `name` set to `value`: an existing header of that
/// name is overwritten in place, otherwise the header is added at the end.
pub open spec fn header_set(
    hs: Seq<(Seq<char>, Seq<char>)>,
    name: Seq<char>,
    value: Seq<char>,
) -> Seq<(Seq<char>, Seq<char>)> {
    if has_header(hs, name) {
        let i = choose|i: int| 0 <= i < hs.len() && same_header(#[trigger] hs[i].0, name);
        hs.update(i, (name, value))
    } else {
        hs.push((name, value))
    }
}

/// The value of the header that basic authentication sets.
pub open spec fn basic_auth_value(username: Seq<char>, password: Seq<char>) -> Seq<char> {
    "Basic "@ + base64_of(encode_utf8(username + ":"@ + password))
}

/// The value of the header that bearer authentication sets.
pub open spec fn bearer_auth_value(token: Seq<char>) -> Seq<char> {
    "Bearer "@ + token
}

/// The name of the header that both authentication forms set.
pub open spec fn authorization_header() -> Seq<char> {
    "authorization"@
}

/// The status of a response as its message shows it: the code, then its
/// reason phrase.
pub open spec fn status_line(code: u16) -> Seq<char> {
    decimal(code as nat) + " "@ + match canonical_reason_of(code) {
        Some(p) => p,
        None => "<unknown status code>"@,
    }
}

/// The message of the error for an empty response body.
pub open spec fn empty_body_message(code: u16) -> Seq<char> {
    "Empty response body (status: "@ + status_line(code) + ")"@
}

/// The number of characters of a body that a decode error quotes.
pub const SNIPPET_CHARS: usize = 1024;

/// The message of the error for a body that does not decode: the decoder's
/// description, then the body's first characters.
pub open spec fn decode_failure_message(detail: Seq<char>, body: Seq<char>) -> Seq<char> {
    "Failed to parse JSON: "@ + detail + ". Response snippet: "@ + prefix_of(body, SNIPPET_CHARS as nat)
}

/// The message of the error that `metadata` returns.
pub open spec fn metadata_unsupported_message() -> Seq<char> {
    "RestExtractor does not provide metadata"@
}

/// The request template of an adapter, as plain values.
pub ghost struct RequestTemplate {
    pub method: Seq<char>,
    pub url: Seq<char>,
    pub headers: Seq<(Seq<char>, Seq<char>)>,
    pub query: Seq<(Seq<char>, Seq<char>)>,
    pub body: Option<Seq<u8>>,
}

/// An adapter of the extraction contract for a REST endpoint: the template
/// of the request that each retrieval sends.
#[derive(Debug)]
pub struct RestExtractor {
    method: String,
    url: String,
    headers: Vec<(String, String)>,
    query: Vec<(String, String)>,
    body: Option<Vec<u8>>,
}

impl View for RestExtractor {
    type V = RequestTemplate;

    closed spec fn view(&self) -> RequestTemplate {
        RequestTemplate {
            method: self.method@,
            url: self.url@,
            headers: pairs_view(self.headers@),
            query: pairs_view(self.query@),
            body: match self.body {
                Some(b) => Some(b@),
                None => None,
            },
        }
    }
}

/// Sets the header `name` to `value` in `headers`.
fn set_header(headers: &mut Vec<(String, String)>, name: String, value: String)
    requires
        header_names_distinct(pairs_view(old(headers)@)),
    ensures
        pairs_view(final(headers)@) == header_set(pairs_view(old(headers)@), name@, value@),
        header_names_distinct(pairs_view(final(headers)@)),
{
    let ghost hs = pairs_view(headers@);
    let mut i: usize = 0;
    while i < headers.len()
        invariant
            i <= headers@.len(),
            hs == pairs_view(headers@),
            hs == pairs_view(old(headers)@),
            header_names_distinct(hs),
            forall|j: int| 0 <= j < i ==> !same_header(#[trigger] hs[j].0, name@),
        decreases headers@.len() - i,
    {
        if equal_ignoring_ascii_case(headers[i].0.as_str(), name.as_str()) {
            proof {
                assert(same_header(hs[i as int].0, name@));
                assert(has_header(hs, name@));
                let c = choose|c: int| 0 <= c < hs.len() && same_header(#[trigger] hs[c].0, name@);
                assert(same_header(hs[i as int].0, hs[c].0));
                assert(c == i as int);
            }
            let ghost nv = name@;
            let ghost vv = value@;
            headers.set(i, (name, value));
            proof {
                assert(pairs_view(headers@) =~= hs.update(i as int, (nv, vv)));
                assert(header_set(hs, nv, vv) == hs.update(i as int, (nv, vv)));
                let hs2 = pairs_view(headers@);
                assert forall|a: int, b: int|
                    0 <= a < hs2.len() && 0 <= b < hs2.len() && a != b implies !same_header(
                    #[trigger] hs2[a].0,
                    #[trigger] hs2[b].0,
                ) by {
                    if a == i {
                        assert(same_header(hs[i as int].0, nv));
                    } else if b == i {
                        assert(same_header(hs[i as int].0, nv));
                    }
                }
            }
            return;
        }
        i = i + 1;
    }
    let ghost nv = name@;
    let ghost vv = value@;
    headers.push((name, value));
    proof {
        assert(!has_header(hs, nv));
        assert(pairs_view(headers@) =~= hs.push((nv, vv)));
    }
}

/// The URL that a request made from template `t` targets, as the HTTP
/// library serializes it; `None` when the target is not an absolute URL.
pub open spec fn request_url(t: RequestTemplate) -> Option<Seq<char>> {
    if t.query.len() == 0 {
        parsed_url(t.url)
    } else {
        parsed_url_with_query(t.url, t.query)
    }
}

/// Template `t` with its method set to `method`, or to GET when `method` is
/// not a method token.
pub open spec fn method_changed(t: RequestTemplate, method: Seq<char>) -> RequestTemplate {
    RequestTemplate { method: if method_accepted(method) { method } else { "GET"@ }, ..t }
}

/// Template `t` with its headers replaced by `hs`.
pub open spec fn with_headers_of(t: RequestTemplate, hs: Seq<(Seq<char>, Seq<char>)>) -> RequestTemplate {
    RequestTemplate { headers: hs, ..t }
}

impl RestExtractor {
    #[verifier::type_invariant]
    spec fn headers_distinct(&self) -> bool {
        header_names_distinct(pairs_view(self.headers@))
    }

    /// Creates an adapter for `endpoint` under `base_url`, sending GET
    /// requests. The two are joined by exactly one `'/'`, whatever slashes end
    /// `base_url` or start `endpoint`.
    pub fn new(base_url: &str, endpoint: &str) -> (r: Self)
        ensures
            r@.method == "GET"@,
            r@.url == joined_url(base_url@, endpoint@),
            r@.headers.len() == 0,
            r@.query.len() == 0,
            r@.body is None,
    {
        let mut url = String::from_str(trim_trailing_slashes(base_url));
        url.append("/");
        url.append(trim_leading_slashes(endpoint));
        proof {
            reveal_strlit("/");
            assert("/"@ =~= seq!['/']);
        }
        let headers: Vec<(String, String)> = Vec::new();
        let query: Vec<(String, String)> = Vec::new();
        proof {
            assert(pairs_view(headers@) =~= Seq::<(Seq<char>, Seq<char>)>::empty());
            assert(pairs_view(query@) =~= Seq::<(Seq<char>, Seq<char>)>::empty());
        }
        RestExtractor { method: String::from_str("GET"), url, headers, query, body: None }
    }

    fn with_header_set(self, name: String, value: String) -> (r: Self)
        ensures
            r@ == with_headers_of(self@, header_set(self@.headers, name@, value@)),
    {
        proof {
            use_type_invariant(&self);
        }
        let RestExtractor { method, url, mut headers, query, body } = self;
        set_header(&mut headers, name, value);
        let r = RestExtractor { method, url, headers, query, body };
        assert(r@ =~= with_headers_of(self@, header_set(self@.headers, name@, value@)));
        r
    }

    /// Authenticates requests with HTTP basic authentication: the
    /// `authorization` header carries the base64 encoding of
    /// `username:password`.
    pub fn with_basic_auth(self, username: &str, password: &str) -> (r: Self)
        ensures
            r@ == with_headers_of(
                self@,
                header_set(self@.headers, authorization_header(), basic_auth_value(username@, password@)),
            ),
    {
        let mut credentials = String::from_str(username);
        credentials.append(":");
        credentials.append(password);
        let encoded = base64_encode(credentials.as_str().as_bytes());
        let mut value = String::from_str("Basic ");
        value.append(encoded.as_str());
        self.with_header_set(String::from_str("authorization"), value)
    }

    /// Sets the header `key` to `value`, overwriting a header of the same
    /// name (names compare up to ASCII case).
    pub fn with_header(self, key: &str, value: &str) -> (r: Self)
        ensures
            r@ == with_headers_of(self@, header_set(self@.headers, key@, value@)),
    {
        self.with_header_set(String::from_str(key), String::from_str(value))
    }

    /// Appends the pairs of `query` to the query parameters.
    pub fn with_query_param(self, query: &[(&str, &str)]) -> (r: Self)
        ensures
            r@ == (RequestTemplate { query: self@.query + str_pairs_view(query@), ..self@ }),
    {
        proof {
            use_type_invariant(&self);
        }
        let RestExtractor { method, url, headers, query: mut params, body } = self;
        let ghost start = pairs_view(params@);
        let mut i: usize = 0;
        while i < query.len()
            invariant
                i <= query@.len(),
                pairs_view(params@) == start + str_pairs_view(query@.take(i as int)),
            decreases query@.len() - i,
        {
            let (k, v) = query[i];
            let ks = String::from_str(k);
            let vs = String::from_str(v);
            let ghost before = params@;
            params.push((ks, vs));
            proof {
                assert(params@ =~= before.push((ks, vs)));
                assert(pairs_view(params@) =~= pairs_view(before).push((k@, v@)));
                assert(str_pairs_view(query@.take(i + 1)) =~= str_pairs_view(query@.take(i as int)).push(
                    (k@, v@),
                ));
                assert(pairs_view(params@) =~= start + str_pairs_view(query@.take(i + 1)));
            }
            i = i + 1;
        }
        assert(query@.take(query@.len() as int) =~= query@);
        let r = RestExtractor { method, url, headers, query: params, body };
        assert(r@ =~= (RequestTemplate { query: self@.query + str_pairs_view(query@), ..self@ }));
        r
    }

    /// Authenticates requests with a bearer token: the `authorization`
    /// header carries `Bearer <token>`.
    pub fn with_auth_token(self, token: &str) -> (r: Self)
        ensures
            r@ == with_headers_of(
                self@,
                header_set(self@.headers, authorization_header(), bearer_auth_value(token@)),
            ),
    {
        let mut value = String::from_str("Bearer ");
        value.append(token);
        self.with_header_set(String::from_str("authorization"), value)
    }

    /// Sets the HTTP method; a string that is not a method token falls back
    /// to GET. Headers, query parameters and body are all kept.
    pub fn with_method(self, method: &str) -> (r: Self)
        ensures
            r@ == method_changed(self@, method@),
    {
        proof {
            use_type_invariant(&self);
        }
        let chosen = if is_valid_method(method) {
            String::from_str(method)
        } else {
            String::from_str("GET")
        };
        let RestExtractor { method: _, url, headers, query, body } = self;
        let r = RestExtractor { method: chosen, url, headers, query, body };
        assert(r@ =~= method_changed(self@, method@));
        r
    }

    /// Sets the raw request body.
    pub fn with_body(self, body: Vec<u8>) -> (r: Self)
        ensures
            r@ == (RequestTemplate { body: Some(body@), ..self@ }),
    {
        proof {
            use_type_invariant(&self);
        }
        let RestExtractor { method, url, headers, query, body: _ } = self;
        let ghost bv = body@;
        let r = RestExtractor { method, url, headers, query, body: Some(body) };
        assert(r@ =~= (RequestTemplate { body: Some(bv), ..self@ }));
        r
    }

    /// Sets the body to the JSON text of `value`, and the `content-type`
    /// header to `application/json` unless a content type is already set.
    pub fn with_json_body(self, value: &serde_json::Value) -> (r: Self)
        ensures
            r@.method == self@.method,
            r@.url == self@.url,
            r@.query == self@.query,
            r@.body == Some(encode_utf8(json_text_of(*value))),
            r@.headers == if has_header(self@.headers, "content-type"@) {
                self@.headers
            } else {
                self@.headers.push(("content-type"@, "application/json"@))
            },
    {
        let has_type = self.has_header_named("content-type");
        let text = json_text(value);
        let bytes = text.as_str().as_bytes_vec();
        let with_body = self.with_body(bytes);
        if has_type {
            with_body
        } else {
            let r = with_body.with_header_set(
                String::from_str("content-type"),
                String::from_str("application/json"),
            );
            r
        }
    }

    fn has_header_named(&self, name: &str) -> (r: bool)
        ensures
            r == has_header(self@.headers, name@),
    {
        let mut i: usize = 0;
        while i < self.headers.len()
            invariant
                i <= self.headers@.len(),
                forall|j: int| 0 <= j < i ==> !same_header(#[trigger] self@.headers[j].0, name@),
            decreases self.headers@.len() - i,
        {
            if equal_ignoring_ascii_case(self.headers[i].0.as_str(), name) {
                assert(same_header(self@.headers[i as int].0, name@));
                return true;
            }
            i = i + 1;
        }
        false
    }

    /// The URL that requests target, query parameters included, as the HTTP
    /// library serializes it; `None` when the target is not an absolute URL.
    pub fn url(&self) -> (r: Option<String>)
        ensures
            r is Some <==> request_url(self@) is Some,
            r is Some ==> request_url(self@)->0 == r->0@,
    {
        if self.query.len() == 0 {
            parse_url(self.url.as_str())
        } else {
            parse_url_with_params(self.url.as_str(), &self.query)
        }
    }

    /// Metadata about the source: a REST endpoint offers none, and says so.
    pub fn metadata(&self) -> (r: ExtractorResult<String>)
        ensures
            r is Err,
            r->Err_0.is_ops_error_with(metadata_unsupported_message()),
    {
        Err(ExtractorError::ExtractOpsError(String::from_str("RestExtractor does not provide metadata")))
    }
}

/// The error for a response body that does not decode: `detail` is the
/// decoder's description, and at most the first [`SNIPPET_CHARS`] characters
/// of `body` are quoted, never the whole of a large body.
pub fn decode_failure(detail: &str, body: &str) -> (r: ExtractorError)
    ensures
        r.is_decode_error_with(decode_failure_message(detail@, body@)),
{
    let mut message = String::from_str("Failed to parse JSON: ");
    message.append(detail);
    message.append(". Response snippet: ");
    let snippet = char_prefix(body, SNIPPET_CHARS);
    message.append(snippet.as_str());
    ExtractorError::DecodeError(message)
}

fn empty_body_error(status: u16) -> (r: ExtractorError)
    ensures
        r.is_ops_error_with(empty_body_message(status)),
{
    let mut message = String::from_str("Empty response body (status: ");
    push_decimal(&mut message, status as u64);
    message.append(" ");
    let ghost head = message@;
    match canonical_reason(status) {
        Some(phrase) => message.append(phrase.as_str()),
        None => message.append("<unknown status code>"),
    }
    let ghost reason = message@.skip(head.len() as int);
    assert(message@ =~= head + reason);
    message.append(")");
    assert(message@ =~= empty_body_message(status));
    ExtractorError::ExtractOpsError(message)
}

impl RestExtractor {
    /// Decodes the response to a structured retrieval: `status` is the HTTP
    /// status of the response and `body` its text. A body of nothing but
    /// white space fails with an error naming the status; a body that is not
    /// one JSON document fails with a decode error holding the decoder's
    /// description and the body's first characters; any other body gives its
    /// JSON value.
    pub fn decode_json(status: u16, body: &str) -> (r: ExtractorResult<serde_json::Value>)
        ensures
            is_blank_text(body@) ==> r is Err && r->Err_0.is_ops_error_with(empty_body_message(status)),
            !is_blank_text(body@) ==> match json_decode_of(body@) {
                Ok(v) => r is Ok && r->Ok_0 == v,
                Err(detail) => r is Err && r->Err_0.is_decode_error_with(
                    decode_failure_message(detail, body@),
                ),
            },
    {
        if is_blank(body) {
            return Err(empty_body_error(status));
        }
        match parse_json(body) {
            Ok(value) => Ok(value),
            Err(detail) => Err(decode_failure(detail.as_str(), body)),
        }
    }

    /// The HTTP method of the requests.
    pub fn method(&self) -> (r: &str)
        ensures
            r@ == self@.method,
    {
        self.method.as_str()
    }

    /// The target URL, as joined from base and endpoint.
    pub fn target(&self) -> (r: &str)
        ensures
            r@ == self@.url,
    {
        self.url.as_str()
    }

    /// The headers, in the order in which they were first set.
    pub fn headers(&self) -> (r: &Vec<(String, String)>)
        ensures
            pairs_view(r@) == self@.headers,
    {
        &self.headers
    }

    /// The query parameters, in the order in which they were added.
    pub fn query(&self) -> (r: &Vec<(String, String)>)
        ensures
            pairs_view(r@) == self@.query,
    {
        &self.query
    }

    /// The request body, if one is set.
    pub fn body(&self) -> (r: Option<&Vec<u8>>)
        ensures
            r is Some <==> self@.body is Some,
            r is Some ==> self@.body->0 == r->0@,
    {
        match &self.body {
            Some(b) => Some(b),
            None => None,
        }
    }
}

impl Extractor for RestExtractor {
    /// A REST adapter holds no resource beyond the caller's connection pool.
    fn close() -> (r: ExtractorResult<()>)
        ensures
            r is Ok,
    {
        Ok(())
    }

    fn source_name(&self) -> (r: ExtractorResult<&str>)
        ensures
            r is Ok,
            r->Ok_0@ == "RestExtractor"@,
    {
        Ok("RestExtractor")
    }
}

/// The target URL of an adapter has exactly one `'/'` between what is left of
/// the base and what is left of the endpoint: the base keeps everything but
/// the slashes that ended it, the endpoint everything but the slashes that
/// started it.
pub proof fn lemma_single_separator(base: Seq<char>, endpoint: Seq<char>)
    ensures
        ({
            let b = trim_end_slashes(base);
            let e = trim_start_slashes(endpoint);
            &&& joined_url(base, endpoint) == b + seq!['/'] + e
            &&& b.len() == 0 || b.last() != '/'
            &&& e.len() == 0 || e[0] != '/'
            &&& b == base.take(b.len() as int)
            &&& forall|i: int| b.len() <= i < base.len() ==> base[i] == '/'
            &&& e == endpoint.skip(endpoint.len() - e.len())
            &&& forall|i: int| 0 <= i < endpoint.len() - e.len() ==> endpoint[i] == '/'
        }),
{
    lemma_trim_end(base);
    lemma_trim_start(endpoint);
}

proof fn lemma_trim_end(s: Seq<char>)
    ensures
        ({
            let b = trim_end_slashes(s);
            &&& b.len() <= s.len()
            &&& b.len() == 0 || b.last() != '/'
            &&& b == s.take(b.len() as int)
            &&& forall|i: int| b.len() <= i < s.len() ==> s[i] == '/'
        }),
    decreases s.len(),
{
    if s.len() > 0 && s.last() == '/' {
        lemma_trim_end(s.drop_last());
        let b = trim_end_slashes(s);
        assert(s.drop_last().take(b.len() as int) =~= s.take(b.len() as int));
        assert forall|i: int| b.len() <= i < s.len() implies s[i] == '/' by {
            if i < s.len() - 1 {
                assert(s[i] == s.drop_last()[i]);
            }
        }
    } else {
        assert(s.take(s.len() as int) =~= s);
    }
}

proof fn lemma_trim_start(s: Seq<char>)
    ensures
        ({
            let e = trim_start_slashes(s);
            &&& e.len() <= s.len()
            &&& e.len() == 0 || e[0] != '/'
            &&& e == s.skip(s.len() - e.len())
            &&& forall|i: int| 0 <= i < s.len() - e.len() ==> s[i] == '/'
        }),
    decreases s.len(),
{
    if s.len() > 0 && s[0] == '/' {
        lemma_trim_start(s.drop_first());
        let e = trim_start_slashes(s);
        assert(s.drop_first().skip(s.drop_first().len() - e.len()) =~= s.skip(s.len() - e.len()));
        assert forall|i: int| 0 <= i < s.len() - e.len() implies s[i] == '/' by {
            if i > 0 {
                assert(s[i] == s.drop_first()[i - 1]);
            }
        }
    } else {
        assert(s.skip(0) =~= s);
    }
}

/// The error for an empty response body names the response's status code:
/// its decimal digits follow the message's opening words.
pub proof fn lemma_empty_body_names_status(status: u16)
    ensures
        ({
            let m = empty_body_message(status);
            let lead = "Empty response body (status: "@;
            m.subrange(lead.len() as int, (lead.len() + decimal(status as nat).len()) as int) == decimal(
                status as nat,
            )
        }),
{
    let lead = "Empty response body (status: "@;
    let d = decimal(status as nat);
    let m = empty_body_message(status);
    let rest = " "@ + match canonical_reason_of(status) {
        Some(p) => p,
        None => "<unknown status code>"@,
    } + ")"@;
    assert(m =~= lead + d + rest);
    assert(m.subrange(lead.len() as int, (lead.len() + d.len()) as int) =~= d);
}

/// The error for a body that does not decode quotes the body's first
/// characters, at most [`SNIPPET_CHARS`] of them: the message ends with that
/// prefix, and besides it holds only the decoder's description and 42
/// characters of fixed text, whatever the size of the body.
pub proof fn lemma_decode_failure_bounded(detail: Seq<char>, body: Seq<char>)
    ensures
        ({
            let m = decode_failure_message(detail, body);
            let n = if body.len() <= SNIPPET_CHARS { body.len() } else { SNIPPET_CHARS as nat };
            &&& m.len() == detail.len() + n + 42
            &&& m.subrange(m.len() - n, m.len() as int) == body.take(n as int)
        }),
{
    reveal_strlit("Failed to parse JSON: ");
    reveal_strlit(". Response snippet: ");
    let n = if body.len() <= SNIPPET_CHARS { body.len() } else { SNIPPET_CHARS as nat };
    let m = decode_failure_message(detail, body);
    let p = prefix_of(body, SNIPPET_CHARS as nat);
    assert(p =~= body.take(n as int));
    let head = "Failed to parse JSON: "@ + detail + ". Response snippet: "@;
    assert(m =~= head + p);
    assert(m.subrange(m.len() - n, m.len() as int) =~= p);
}

/// Changing the method of a template keeps every header that was set
/// before, in order, and keeps the query parameters, the body and the target.
pub proof fn lemma_method_change_keeps_request(t: RequestTemplate, method: Seq<char>)
    ensures
        method_changed(t, method).headers == t.headers,
        method_changed(t, method).query == t.query,
        method_changed(t, method).body == t.body,
        method_changed(t, method).url == t.url,
        request_url(method_changed(t, method)) == request_url(t),
{
}

} // verus!
