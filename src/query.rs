//! The two kinds of query and the request-info metadata attached to each.

use crate::error::{ErrorKind, HoundifyError, InvalidRequestInfoError};
use crate::json::{encode_json_object, json_encoded, json_error_text, object_model, value_model, JsonModel, NumberModel};
use vstd::prelude::*;
use vstd::string::*;
use vstd::utf8::encode_utf8;

verus! {

/// Whether form-urlencoding keeps a byte as it is: `*`, `-`, `.`, `_`, an
/// ASCII digit or an ASCII letter.
pub open spec fn form_unreserved(b: u8) -> bool {
    b == 42 || b == 45 || b == 46 || b == 95 || (48 <= b <= 57) || (65 <= b <= 90) || (97 <= b <= 122)
}

/// The upper-case hexadecimal digit for `d`, for `d < 16`.
pub open spec fn hex_upper(d: nat) -> char {
    seq!['0', '1', '2', '3', '4', '5', '6', '7', '8', '9', 'A', 'B', 'C', 'D', 'E', 'F'][d as int]
}

/// The form-urlencoded text of one byte: kept when unreserved, `+` for a
/// space, `%XX` in upper-case hexadecimal otherwise.
pub open spec fn form_encoded_byte(b: u8) -> Seq<char> {
    if form_unreserved(b) {
        seq![b as char]
    } else if b == 32 {
        seq!['+']
    } else {
        seq!['%', hex_upper((b / 16) as nat), hex_upper((b % 16) as nat)]
    }
}

/// The form-urlencoded text of a sequence of bytes.
pub open spec fn form_encoded_bytes(bytes: Seq<u8>) -> Seq<char>
    decreases bytes.len(),
{
    if bytes.len() == 0 {
        Seq::empty()
    } else {
        form_encoded_byte(bytes[0]) + form_encoded_bytes(bytes.drop_first())
    }
}

/// The form-urlencoded text of some text: that of its UTF-8 bytes.
pub open spec fn form_urlencoded(text: Seq<char>) -> Seq<char> {
    form_encoded_bytes(encode_utf8(text))
}

/// Relies on `url::form_urlencoded::byte_serialize` of the UTF-8 bytes of the
/// text, joined into one string: each byte as `form_encoded_byte` says (the
/// crate's `byte_serialized_unchanged` and `percent_encode_byte`).
#[verifier::external_body]
fn form_urlencode(text: &str) -> (r: String)
    ensures
        r@ == form_urlencoded(text@),
{
    url::form_urlencoded::byte_serialize(text.as_bytes()).collect()
}

/// The SDK identifier that every text query reports.
pub open spec fn sdk_id() -> Seq<char> {
    "houndify-sdk-rust/1.0"@
}

/// The key of the send time.
pub open spec fn timestamp_key() -> Seq<char> {
    "TimeStamp"@
}

/// The key of the client id.
pub open spec fn client_id_key() -> Seq<char> {
    "ClientID"@
}

/// The key of the time the position was taken.
pub open spec fn position_time_key() -> Seq<char> {
    "PositionTime"@
}

/// The key of the SDK identifier.
pub open spec fn sdk_key() -> Seq<char> {
    "SDK"@
}

/// The key of the user id.
pub open spec fn user_id_key() -> Seq<char> {
    "UserID"@
}

/// Builds the URL of a query from the API base URL.
pub trait Query {
    /// The URL of this query under the API base `api_url`.
    spec fn url_spec(&self, api_url: Seq<char>) -> Seq<char>;

    fn get_url(&self, api_url: &str) -> (r: String)
        ensures
            r@ == self.url_spec(api_url@),
    ;
}

/// Per-request metadata, sent as a JSON object in a header. Setting a key
/// that is already present replaces its value.
#[derive(Debug, Clone)]
pub struct RequestInfo {
    request_info_map: serde_json::Map<String, serde_json::Value>,
}

impl View for RequestInfo {
    type V = Map<Seq<char>, JsonModel>;

    closed spec fn view(&self) -> Map<Seq<char>, JsonModel> {
        object_model(self.request_info_map)
    }
}

impl RequestInfo {
    pub fn new() -> (r: RequestInfo)
        ensures
            r@ == Map::<Seq<char>, JsonModel>::empty(),
    {
        RequestInfo { request_info_map: serde_json::Map::new() }
    }

    /// Sets `TimeStamp`, the time of sending in seconds since the Unix epoch.
    pub fn timestamp(&mut self, v: u64) -> (r: Option<InvalidRequestInfoError>)
        ensures
            r is None,
            final(self)@ == old(self)@.insert(timestamp_key(), JsonModel::Number(NumberModel::Int(v as int))),
    {
        self.request_info_map.insert("TimeStamp".to_owned(), serde_json::Value::from(v));
        None
    }

    /// Sets `ClientID`.
    pub fn client_id(&mut self, v: &str) -> (r: Option<InvalidRequestInfoError>)
        ensures
            r is None,
            final(self)@ == old(self)@.insert(client_id_key(), JsonModel::Str(v@)),
    {
        self.request_info_map.insert("ClientID".to_owned(), serde_json::Value::from(v.to_owned()));
        None
    }

    /// Sets `PositionTime`, the time at which the position was taken, in
    /// seconds since the Unix epoch.
    pub fn position_time(&mut self, v: u64) -> (r: Option<InvalidRequestInfoError>)
        ensures
            r is None,
            final(self)@ == old(self)@.insert(position_time_key(), JsonModel::Number(NumberModel::Int(v as int))),
    {
        self.request_info_map.insert("PositionTime".to_owned(), serde_json::Value::from(v));
        None
    }

    /// Sets an arbitrary key.
    pub fn set(&mut self, k: String, v: serde_json::Value) -> (r: Option<InvalidRequestInfoError>)
        ensures
            r is None,
            final(self)@ == old(self)@.insert(k@, value_model(v)),
    {
        self.request_info_map.insert(k, v);
        None
    }

    /// The compact JSON text of the request info. It always succeeds.
    pub fn serialize(self) -> (r: Result<String, HoundifyError>)
        ensures
            r is Ok,
            r matches Ok(text) ==> text@ == json_encoded(self@),
    {
        self.to_json()
    }

    pub(crate) fn to_json(&self) -> (r: Result<String, HoundifyError>)
        ensures
            r is Ok,
            r matches Ok(text) ==> text@ == json_encoded(self@),
    {
        match encode_json_object(&self.request_info_map) {
            Ok(text) => Ok(text),
            Err(e) => Err(HoundifyError::new(ErrorKind::Serialization, json_error_text(&e))),
        }
    }
}

/// A query given as text.
#[derive(Debug)]
pub struct TextQuery {
    pub query: String,
    pub user_id: String,
    pub request_info: RequestInfo,
}

impl TextQuery {
    /// A text query. The request info gets the SDK identifier and the user id.
    pub fn new(query: &str, user_id: &str, request_info: RequestInfo) -> (r: TextQuery)
        ensures
            r.query@ == query@,
            r.user_id@ == user_id@,
            r.request_info@ == request_info@.insert(sdk_key(), JsonModel::Str(sdk_id())).insert(
                user_id_key(),
                JsonModel::Str(user_id@),
            ),
    {
        let mut request_info = request_info;
        request_info.set("SDK".to_owned(), serde_json::Value::from("houndify-sdk-rust/1.0".to_owned()));
        request_info.set("UserID".to_owned(), serde_json::Value::from(user_id.to_owned()));
        TextQuery { query: query.to_owned(), user_id: user_id.to_owned(), request_info }
    }
}

impl Query for TextQuery {
    /// `{api_url}v1/text?query={form-urlencoded query}`.
    open spec fn url_spec(&self, api_url: Seq<char>) -> Seq<char> {
        api_url + "v1/text?query="@ + form_urlencoded(self.query@)
    }

    fn get_url(&self, api_url: &str) -> (r: String) {
        let mut url = api_url.to_owned();
        url.append("v1/text?query=");
        let encoded = form_urlencode(self.query.as_str());
        url.append(encoded.as_str());
        url
    }
}

/// A query given as audio, which is sent as the request body. `A` is the
/// audio source; the library only carries it.
pub struct VoiceQuery<A> {
    pub audio_stream: A,
    pub user_id: String,
    pub request_info: RequestInfo,
}

impl<A> VoiceQuery<A> {
    /// A voice query. The request info gets the SDK identifier and the user id.
    pub fn new(audio_stream: A, user_id: &str, request_info: RequestInfo) -> (r: VoiceQuery<A>)
        ensures
            r.audio_stream == audio_stream,
            r.user_id@ == user_id@,
            r.request_info@ == request_info@.insert(sdk_key(), JsonModel::Str(sdk_id())).insert(
                user_id_key(),
                JsonModel::Str(user_id@),
            ),
    {
        let mut request_info = request_info;
        request_info.set("SDK".to_owned(), serde_json::Value::from("houndify-sdk-rust/1.0".to_owned()));
        request_info.set("UserID".to_owned(), serde_json::Value::from(user_id.to_owned()));
        VoiceQuery { audio_stream, user_id: user_id.to_owned(), request_info }
    }
}

impl<A> Query for VoiceQuery<A> {
    /// `{api_url}v1/audio`, whatever the audio.
    open spec fn url_spec(&self, api_url: Seq<char>) -> Seq<char> {
        api_url + "v1/audio"@
    }

    fn get_url(&self, api_url: &str) -> (r: String) {
        let mut url = api_url.to_owned();
        url.append("v1/audio");
        url
    }
}

} // verus!
