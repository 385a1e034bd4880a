//! Client library for the Houndify voice and text query service.
//!
//! The verified core covers request signing (`auth`), the request-info
//! metadata and the two kinds of query (`query`), the preparation of
//! transport-ready requests (`client`) and the parsing of the service's JSON
//! replies (`response`). Sending requests over HTTP is left to the caller.

pub mod auth;
pub mod client;
pub mod error;
pub mod json;
pub mod query;
pub mod response;
pub mod wire;

pub use crate::client::{default_request_id, get_current_timestamp, Client, Method, PreparedRequest, DEFAULT_API_ENDPOINT};
pub use crate::error::{ErrorKind, HoundifyError, InvalidRequestInfoError};
pub use crate::query::{Query, RequestInfo, TextQuery, VoiceQuery};
pub use crate::response::{
    parse_response, BuildInfo, Disambiguation, DisambiguationChoice, DomainUsage, HoundServerResponse,
};
