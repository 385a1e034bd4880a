use vstd::prelude::*;

verus! {

/// The step of a request that failed.
#[derive(Clone, Copy, Debug, PartialEq, Eq, Structural)]
pub enum ErrorKind {
    /// The client key is not valid URL-safe base64.
    InvalidCredentials,
    /// A header value holds a byte that HTTP does not allow in one.
    InvalidHeaderValue,
    /// The request info could not be encoded as JSON.
    Serialization,
    /// The HTTP exchange failed.
    Transport,
    /// The response body is not JSON or does not fit the response schema.
    Parse,
}

/// An error raised while preparing, sending or reading a request.
#[derive(Debug)]
pub struct HoundifyError {
    pub kind: ErrorKind,
    pub message: String,
}

impl HoundifyError {
    pub fn new(kind: ErrorKind, message: String) -> (r: HoundifyError)
        ensures
            r.kind == kind,
            r.message@ == message@,
    {
        HoundifyError { kind, message }
    }

    pub fn kind(&self) -> (r: ErrorKind)
        ensures
            r == self.kind,
    {
        self.kind
    }

    pub fn message(&self) -> (r: &str)
        ensures
            r@ == self.message@,
    {
        self.message.as_str()
    }
}

/// A request-info value that was refused, with the reason.
#[derive(Debug)]
pub struct InvalidRequestInfoError {
    pub msg: String,
}

impl InvalidRequestInfoError {
    pub fn new(msg: &str) -> (r: InvalidRequestInfoError)
        ensures
            r.msg@ == msg@,
    {
        InvalidRequestInfoError { msg: msg.to_owned() }
    }

    pub fn message(&self) -> (r: &str)
        ensures
            r@ == self.msg@,
    {
        self.msg.as_str()
    }
}

} // verus!
