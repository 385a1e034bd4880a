//! Preparing requests: the headers and URL of a query, stamped and signed.
//! Sending them is up to the caller's HTTP transport.

use crate::auth::{client_auth_text, request_auth_text, sign, url_safe_decoded};
use crate::error::{ErrorKind, HoundifyError};
use crate::json::{json_encoded, JsonModel, NumberModel};
use crate::query::{client_id_key, timestamp_key, Query, RequestInfo, TextQuery, VoiceQuery};
use crate::wire::{decimal, decimal_string, is_header_value, valid_header_value};
use std::time::{SystemTime, UNIX_EPOCH};
use vstd::prelude::*;
use vstd::utf8::encode_utf8;

verus! {

/// The default base URL of the API.
pub const DEFAULT_API_ENDPOINT: &'static str = "https://api.houndify.com/";

/// Relies on `SystemTime::now` and `SystemTime::duration_since(UNIX_EPOCH)`:
/// whole seconds since the Unix epoch, or `None` for a clock set before it.
#[verifier::external_body]
fn seconds_since_epoch() -> (r: Option<u64>) {
    SystemTime::now().duration_since(UNIX_EPOCH).ok().map(|d| d.as_secs())
}

/// The current time in whole seconds since the Unix epoch, or `None` where
/// the system clock is set before the epoch.
pub fn get_current_timestamp() -> (r: Option<u64>) {
    seconds_since_epoch()
}

/// The hyphenated lower-case form of a UUID: 36 characters, hyphens at
/// positions 8, 13, 18 and 23, lower-case hexadecimal digits elsewhere.
pub open spec fn is_hyphenated_uuid(s: Seq<char>) -> bool {
    &&& s.len() == 36
    &&& forall|i: int|
        0 <= i < 36 ==> if i == 8 || i == 13 || i == 18 || i == 23 {
            #[trigger] s[i] == '-'
        } else {
            ('0' <= s[i] <= '9') || ('a' <= s[i] <= 'f')
        }
}

/// Relies on `uuid::Uuid::new_v4` and the `Display` impl of `Uuid`, which
/// writes the hyphenated lower-case form (`LowerHex`): a random UUID.
#[verifier::external_body]
fn random_uuid() -> (r: String)
    ensures
        is_hyphenated_uuid(r@),
{
    uuid::Uuid::new_v4().to_string()
}

/// A fresh request id: a random version-4 UUID in hyphenated form.
pub fn default_request_id() -> (r: String)
    ensures
        is_hyphenated_uuid(r@),
{
    random_uuid()
}

pub open spec fn client_auth_header() -> Seq<char> {
    "Hound-Client-Authentication"@
}

pub open spec fn request_auth_header() -> Seq<char> {
    "Hound-Request-Authentication"@
}

pub open spec fn request_info_header() -> Seq<char> {
    "Houndify-Request-Info"@
}

pub open spec fn request_info_length_header() -> Seq<char> {
    "Houndify-Request-Info-Length"@
}

/// A list of headers, as names and values.
pub open spec fn headers_view(headers: Vec<(String, String)>) -> Seq<(Seq<char>, Seq<char>)> {
    headers@.map_values(|h: (String, String)| (h.0@, h.1@))
}

/// What a request info holds once a client has stamped it for sending.
pub open spec fn stamped(
    info: Map<Seq<char>, JsonModel>,
    timestamp: u64,
    client_id: Seq<char>,
) -> Map<Seq<char>, JsonModel> {
    info.insert(timestamp_key(), JsonModel::Number(NumberModel::Int(timestamp as int))).insert(
        client_id_key(),
        JsonModel::Str(client_id),
    )
}

/// The configuration of a client: the API base URL and the credentials.
pub struct ClientView {
    pub api_url: Seq<char>,
    pub client_id: Seq<char>,
    pub client_key: Seq<char>,
}

/// The outcome of building the headers of one request: the header list or
/// the kind of error, and the request info after the call (`after`) given
/// the one before (`before`).
///
/// Bad credentials and unsendable authentication values fail before the
/// request info is touched. Otherwise it gets `TimeStamp` and `ClientID`,
/// and its JSON text and that text's length in bytes follow the two
/// authentication headers, unless that text is not a valid header value.
pub open spec fn headers_outcome(
    c: ClientView,
    user_id: Seq<char>,
    request_id: Seq<char>,
    timestamp: u64,
    before: Map<Seq<char>, JsonModel>,
    after: Map<Seq<char>, JsonModel>,
    r: Result<Seq<(Seq<char>, Seq<char>)>, ErrorKind>,
) -> bool {
    match url_safe_decoded(c.client_key) {
        None => r == Err::<Seq<(Seq<char>, Seq<char>)>, ErrorKind>(ErrorKind::InvalidCredentials) && after == before,
        Some(key) => {
            let client_auth = client_auth_text(c.client_id, key, user_id, request_id, timestamp);
            let request_auth = request_auth_text(user_id, request_id);
            if !is_header_value(client_auth) || !is_header_value(request_auth) {
                r == Err::<Seq<(Seq<char>, Seq<char>)>, ErrorKind>(ErrorKind::InvalidHeaderValue) && after == before
            } else {
                let json = json_encoded(after);
                &&& after == stamped(before, timestamp, c.client_id)
                &&& if is_header_value(json) {
                    r == Ok::<Seq<(Seq<char>, Seq<char>)>, ErrorKind>(
                        seq![
                            (client_auth_header(), client_auth),
                            (request_auth_header(), request_auth),
                            (request_info_header(), json),
                            (request_info_length_header(), decimal(encode_utf8(json).len())),
                        ],
                    )
                } else {
                    r == Err::<Seq<(Seq<char>, Seq<char>)>, ErrorKind>(ErrorKind::InvalidHeaderValue)
                }
            }
        },
    }
}

pub open spec fn headers_result(r: Result<Vec<(String, String)>, HoundifyError>) -> Result<
    Seq<(Seq<char>, Seq<char>)>,
    ErrorKind,
> {
    match r {
        Ok(h) => Ok(headers_view(h)),
        Err(e) => Err(e.kind),
    }
}

/// The HTTP method of a request.
#[derive(Clone, Copy, Debug, PartialEq, Eq, Structural)]
pub enum Method {
    Get,
    Post,
}

/// A request ready for an HTTP transport. A voice query's audio goes as
/// the body.
#[derive(Debug)]
pub struct PreparedRequest {
    pub method: Method,
    pub url: String,
    pub headers: Vec<(String, String)>,
}

pub open spec fn request_result(r: Result<PreparedRequest, HoundifyError>) -> Result<
    Seq<(Seq<char>, Seq<char>)>,
    ErrorKind,
> {
    match r {
        Ok(req) => Ok(headers_view(req.headers)),
        Err(e) => Err(e.kind),
    }
}

/// A client of the service: the API base URL and the credentials, fixed for
/// its lifetime.
#[derive(Debug)]
pub struct Client {
    api_url: String,
    client_id: String,
    client_key: String,
}

impl View for Client {
    type V = ClientView;

    closed spec fn view(&self) -> ClientView {
        ClientView { api_url: self.api_url@, client_id: self.client_id@, client_key: self.client_key@ }
    }
}

fn header(name: &str, value: String) -> (r: (String, String))
    ensures
        r.0@ == name@,
        r.1@ == value@,
{
    (name.to_owned(), value)
}

fn invalid_header_value() -> (r: HoundifyError)
    ensures
        r.kind == ErrorKind::InvalidHeaderValue,
{
    HoundifyError::new(ErrorKind::InvalidHeaderValue, "a header value holds a control character".to_owned())
}

impl Client {
    pub fn new(api_url: &str, client_id: &str, client_key: &str) -> (r: Client)
        ensures
            r@ == (ClientView { api_url: api_url@, client_id: client_id@, client_key: client_key@ }),
    {
        Client { api_url: api_url.to_owned(), client_id: client_id.to_owned(), client_key: client_key.to_owned() }
    }

    /// The two authentication headers of a request.
    pub fn build_auth_headers(&self, user_id: &str, request_id: &str, timestamp: u64) -> (r: Result<
        Vec<(String, String)>,
        HoundifyError,
    >)
        ensures
            match url_safe_decoded(self@.client_key) {
                None => r matches Err(e) && e.kind == ErrorKind::InvalidCredentials,
                Some(key) => {
                    let client_auth = client_auth_text(self@.client_id, key, user_id@, request_id@, timestamp);
                    let request_auth = request_auth_text(user_id@, request_id@);
                    if is_header_value(client_auth) && is_header_value(request_auth) {
                        r matches Ok(h) && headers_view(h) == seq![
                            (client_auth_header(), client_auth),
                            (request_auth_header(), request_auth),
                        ]
                    } else {
                        r matches Err(e) && e.kind == ErrorKind::InvalidHeaderValue
                    }
                },
            },
    {
        let auth = match sign(self.client_id.as_str(), self.client_key.as_str(), user_id, request_id, timestamp) {
            Ok(auth) => auth,
            Err(e) => {
                return Err(e);
            },
        };
        if !valid_header_value(auth.client_auth.as_str()) || !valid_header_value(auth.request_auth.as_str()) {
            return Err(invalid_header_value());
        }
        let mut headers: Vec<(String, String)> = Vec::new();
        headers.push(header("Hound-Client-Authentication", auth.client_auth));
        headers.push(header("Hound-Request-Authentication", auth.request_auth));
        assert(headers_view(headers) =~= seq![
            (client_auth_header(), auth.client_auth@),
            (request_auth_header(), auth.request_auth@),
        ]);
        Ok(headers)
    }

    /// All four headers of a request. The request info is stamped with the
    /// timestamp and the client id first, so that the JSON header carries
    /// the same timestamp as the signature.
    pub fn build_request_headers(
        &self,
        user_id: &str,
        request_id: &str,
        timestamp: u64,
        request_info: &mut RequestInfo,
    ) -> (r: Result<Vec<(String, String)>, HoundifyError>)
        ensures
            headers_outcome(
                self@,
                user_id@,
                request_id@,
                timestamp,
                old(request_info)@,
                final(request_info)@,
                headers_result(r),
            ),
    {
        let mut headers = match self.build_auth_headers(user_id, request_id, timestamp) {
            Ok(h) => h,
            Err(e) => {
                return Err(e);
            },
        };
        request_info.timestamp(timestamp);
        request_info.client_id(self.client_id.as_str());
        let json = match request_info.to_json() {
            Ok(json) => json,
            Err(e) => {
                return Err(e);
            },
        };
        if !valid_header_value(json.as_str()) {
            return Err(invalid_header_value());
        }
        let bytes = json.as_str().as_bytes();
        let length = bytes.len();
        let length_text = decimal_string(length as u64);
        let ghost auth_headers = headers_view(headers);
        headers.push(header("Houndify-Request-Info", json));
        headers.push(header("Houndify-Request-Info-Length", length_text));
        assert(headers_view(headers) =~= auth_headers + seq![
            (request_info_header(), json@),
            (request_info_length_header(), length_text@),
        ]);
        proof {
            let key = url_safe_decoded(self@.client_key)->0;
            assert(headers_view(headers) =~= seq![
                (client_auth_header(), client_auth_text(self@.client_id, key, user_id@, request_id@, timestamp)),
                (request_auth_header(), request_auth_text(user_id@, request_id@)),
                (request_info_header(), json@),
                (request_info_length_header(), decimal(encode_utf8(json@).len())),
            ]);
        }
        Ok(headers)
    }

    /// Prepares a text query for sending: a GET of the query's URL with the
    /// four headers.
    pub fn text_request(&self, query: &mut TextQuery, request_id: &str, timestamp: u64) -> (r: Result<
        PreparedRequest,
        HoundifyError,
    >)
        ensures
            final(query).query == old(query).query,
            final(query).user_id == old(query).user_id,
            headers_outcome(
                self@,
                old(query).user_id@,
                request_id@,
                timestamp,
                old(query).request_info@,
                final(query).request_info@,
                request_result(r),
            ),
            r matches Ok(req) ==> req.method == Method::Get && req.url@ == old(query).url_spec(self@.api_url),
    {
        let headers = match self.build_request_headers(
            query.user_id.as_str(),
            request_id,
            timestamp,
            &mut query.request_info,
        ) {
            Ok(h) => h,
            Err(e) => {
                return Err(e);
            },
        };
        let url = query.get_url(self.api_url.as_str());
        Ok(PreparedRequest { method: Method::Get, url, headers })
    }

    /// Prepares a voice query for sending: a POST to the audio URL with the
    /// four headers; the query's audio is the body.
    pub fn voice_request<A>(&self, query: &mut VoiceQuery<A>, request_id: &str, timestamp: u64) -> (r: Result<
        PreparedRequest,
        HoundifyError,
    >)
        ensures
            final(query).audio_stream == old(query).audio_stream,
            final(query).user_id == old(query).user_id,
            headers_outcome(
                self@,
                old(query).user_id@,
                request_id@,
                timestamp,
                old(query).request_info@,
                final(query).request_info@,
                request_result(r),
            ),
            r matches Ok(req) ==> req.method == Method::Post && req.url@ == old(query).url_spec(self@.api_url),
    {
        let headers = match self.build_request_headers(
            query.user_id.as_str(),
            request_id,
            timestamp,
            &mut query.request_info,
        ) {
            Ok(h) => h,
            Err(e) => {
                return Err(e);
            },
        };
        let url = query.get_url(self.api_url.as_str());
        Ok(PreparedRequest { method: Method::Post, url, headers })
    }
}

} // verus!
