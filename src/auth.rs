//! Request authentication: the two header values derived from the client's
//! shared secret.

use crate::error::{ErrorKind, HoundifyError};
use crate::wire::{decimal, push_decimal};
use hmac::{Hmac, Mac};
use sha2::Sha256;
use vstd::prelude::*;
use vstd::string::*;
use vstd::utf8::encode_utf8;

verus! {

/// `base64::DecodeError`, the error of decoding base64 text.
#[verifier::external_type_specification]
#[verifier::external_body]
pub struct ExDecodeError(base64::DecodeError);

/// `crypto_mac::InvalidKeyLength`, the error type of `Mac::new_varkey`.
#[verifier::external_type_specification]
#[verifier::external_body]
pub struct ExInvalidKeyLength(hmac::crypto_mac::InvalidKeyLength);

/// The bytes that URL-safe base64 text decodes to, or `None` where the text
/// is not valid URL-safe base64.
pub uninterp spec fn url_safe_decoded(text: Seq<char>) -> Option<Seq<u8>>;

/// The padded URL-safe base64 text of some bytes.
pub uninterp spec fn url_safe_encoded(bytes: Seq<u8>) -> Seq<char>;

/// The HMAC-SHA256 tag of `message` under `key`.
pub uninterp spec fn hmac_sha256_tag(key: Seq<u8>, message: Seq<u8>) -> Seq<u8>;

/// Relies on `base64::decode_config` with `base64::URL_SAFE`: the decoded
/// bytes, or an error where the text is not URL-safe base64.
#[verifier::external_body]
fn decode_url_safe(text: &str) -> (r: Result<Vec<u8>, base64::DecodeError>)
    ensures
        match r {
            Ok(bytes) => url_safe_decoded(text@) == Some(bytes@),
            Err(_) => url_safe_decoded(text@) is None,
        },
{
    base64::decode_config(text, base64::URL_SAFE)
}

/// A character of the URL-safe base64 alphabet, or the padding `=`.
pub open spec fn url_safe_char(c: char) -> bool {
    ('A' <= c <= 'Z') || ('a' <= c <= 'z') || ('0' <= c <= '9') || c == '-' || c == '_' || c == '='
}

/// Relies on `base64::encode_config` with `base64::URL_SAFE`: padded URL-safe
/// base64 text, four characters for each started group of three bytes
/// (`encoded_size`), drawn from the `URL_SAFE_ENCODE` table or `=`. It panics
/// where the encoded length overflows `usize`, which the bound on the input
/// rules out.
#[verifier::external_body]
fn encode_url_safe(bytes: &[u8]) -> (r: String)
    requires
        bytes@.len() <= 0x3fff_ffff,
    ensures
        r@ == url_safe_encoded(bytes@),
        r@.len() == 4 * ((bytes@.len() + 2) / 3),
        forall|i: int| 0 <= i < r@.len() ==> url_safe_char(#[trigger] r@[i]),
{
    base64::encode_config(bytes, base64::URL_SAFE)
}

/// Relies on `Hmac::<Sha256>::new_varkey`, `Mac::input` and `Mac::result` of
/// the hmac crate: `new_varkey` accepts a key of any length (it returns `Ok`
/// in every case), and the code of the result is the 32-byte HMAC-SHA256 tag.
#[verifier::external_body]
fn hmac_sha256(key: &[u8], message: &[u8]) -> (r: Result<Vec<u8>, hmac::crypto_mac::InvalidKeyLength>)
    ensures
        r is Ok,
        r matches Ok(tag) ==> tag@ == hmac_sha256_tag(key@, message@) && tag@.len() == 32,
{
    let mut mac = Hmac::<Sha256>::new_varkey(key)?;
    mac.input(message);
    Ok(mac.result().code().to_vec())
}

/// The two authentication header values of one request.
#[derive(Debug)]
pub struct AuthValues {
    /// The value of the `Hound-Client-Authentication` header.
    pub client_auth: String,
    /// The value of the `Hound-Request-Authentication` header.
    pub request_auth: String,
}

/// The text that is signed: the user id, a semicolon, then the request id
/// directly followed by the decimal timestamp.
pub open spec fn signed_text(user_id: Seq<char>, request_id: Seq<char>, timestamp: u64) -> Seq<char> {
    user_id + seq![';'] + request_id + decimal(timestamp as nat)
}

/// The signature: the HMAC-SHA256 tag of the UTF-8 bytes of the signed text
/// under the decoded key, in URL-safe base64.
pub open spec fn signature(key: Seq<u8>, user_id: Seq<char>, request_id: Seq<char>, timestamp: u64) -> Seq<char> {
    url_safe_encoded(hmac_sha256_tag(key, encode_utf8(signed_text(user_id, request_id, timestamp))))
}

/// `{client_id};{timestamp};{signature}`.
pub open spec fn client_auth_text(
    client_id: Seq<char>,
    key: Seq<u8>,
    user_id: Seq<char>,
    request_id: Seq<char>,
    timestamp: u64,
) -> Seq<char> {
    client_id + seq![';'] + decimal(timestamp as nat) + seq![';'] + signature(key, user_id, request_id, timestamp)
}

/// `{user_id};{request_id}`.
pub open spec fn request_auth_text(user_id: Seq<char>, request_id: Seq<char>) -> Seq<char> {
    user_id + seq![';'] + request_id
}

/// Computes the authentication header values for one request. Fails with
/// `InvalidCredentials` exactly when the client key is not URL-safe base64.
pub fn sign(client_id: &str, client_key: &str, user_id: &str, request_id: &str, timestamp: u64) -> (r: Result<AuthValues, HoundifyError>)
    ensures
        match url_safe_decoded(client_key@) {
            None => r matches Err(e) && e.kind == ErrorKind::InvalidCredentials,
            Some(key) => r matches Ok(v) && v.client_auth@ == client_auth_text(client_id@, key, user_id@, request_id@, timestamp)
                && v.request_auth@ == request_auth_text(user_id@, request_id@),
        },
{
    proof {
        reveal_strlit(";");
    }
    let key = match decode_url_safe(client_key) {
        Ok(key) => key,
        Err(_) => {
            return Err(HoundifyError::new(
                ErrorKind::InvalidCredentials,
                "the client key is not valid URL-safe base64".to_owned(),
            ));
        },
    };
    let mut data = user_id.to_owned();
    data.append(";");
    data.append(request_id);
    push_decimal(&mut data, timestamp);
    assert(data@ =~= signed_text(user_id@, request_id@, timestamp));
    let tag = match hmac_sha256(key.as_slice(), data.as_str().as_bytes()) {
        Ok(tag) => tag,
        Err(_) => {
            return Err(HoundifyError::new(
                ErrorKind::InvalidCredentials,
                "the client key was refused by HMAC-SHA256".to_owned(),
            ));
        },
    };
    let sig = encode_url_safe(tag.as_slice());
    let mut client_auth = client_id.to_owned();
    client_auth.append(";");
    push_decimal(&mut client_auth, timestamp);
    client_auth.append(";");
    client_auth.append(sig.as_str());
    let mut request_auth = user_id.to_owned();
    request_auth.append(";");
    request_auth.append(request_id);
    assert(client_auth@ =~= client_auth_text(client_id@, key@, user_id@, request_id@, timestamp));
    assert(request_auth@ =~= request_auth_text(user_id@, request_id@));
    Ok(AuthValues { client_auth, request_auth })
}

} // verus!
