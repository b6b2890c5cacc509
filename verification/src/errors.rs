//! The classified errors a search call can produce.
//!
//! The taxonomy keeps three disjoint categories: the request never produced
//! a usable response, the server answered with a non-success HTTP status,
//! or a body arrived that does not match the expected schema.

use vstd::prelude::*;
use vstd::string::StringExecFns;
use crate::numbers::{dec_str, u64_to_dec, lemma_dec_str_digits};

verus! {

/// The error type returned by every failing operation of this library.
#[derive(Debug)]
pub enum BraveClientError {
    /// Connection-level failure: the server was never reached, or the
    /// exchange broke off before a status was seen.
    ClientError(String),
    /// The server answered with a non-success HTTP status; the text keeps
    /// the status code for the caller to inspect.
    HttpError(String),
    /// A body arrived but could not be read as a search response; the text
    /// keeps the parser's diagnostic.
    ResponseDeserializationError(String),
}

/// The display text of an error value.
pub open spec fn error_text(e: BraveClientError) -> Seq<char> {
    match e {
        BraveClientError::ClientError(s) => "Client error: "@ + s@,
        BraveClientError::HttpError(s) => "Http error: "@ + s@,
        BraveClientError::ResponseDeserializationError(_) => "Unable to deserialize response"@,
    }
}

/// The text stored inside an HTTP status error: the decimal status code
/// followed by the transport's own description.
pub open spec fn http_status_text(status: nat, detail: Seq<char>) -> Seq<char> {
    "HTTP error "@ + dec_str(status) + ": "@ + detail
}

impl BraveClientError {
    /// The human-readable description of this error.
    pub fn message(&self) -> (r: String)
        ensures
            r@ == error_text(*self),
    {
        match self {
            BraveClientError::ClientError(s) => {
                let mut m = "Client error: ".to_owned();
                m.append(s.as_str());
                m
            },
            BraveClientError::HttpError(s) => {
                let mut m = "Http error: ".to_owned();
                m.append(s.as_str());
                m
            },
            BraveClientError::ResponseDeserializationError(_) => {
                "Unable to deserialize response".to_owned()
            },
        }
    }

    /// The status error for a response whose HTTP status was not a success.
    pub fn from_status(status: u16, detail: &str) -> (r: Self)
        ensures
            (r matches BraveClientError::HttpError(m)
                && m@ == http_status_text(status as nat, detail@)),
    {
        let mut m = "HTTP error ".to_owned();
        let code = u64_to_dec(status as u64);
        m.append(code.as_str());
        m.append(": ");
        m.append(detail);
        assert(m@ =~= http_status_text(status as nat, detail@));
        BraveClientError::HttpError(m)
    }

    /// Sorts a failed exchange into the taxonomy: an outcome that carries an
    /// HTTP status becomes a status error keeping the code, anything else a
    /// connection-level error keeping the transport's description.
    pub fn classify_transport(status: Option<u16>, detail: &str) -> (r: Self)
        ensures
            match status {
                Some(code) => (r matches BraveClientError::HttpError(m)
                    && m@ == http_status_text(code as nat, detail@)),
                None => (r matches BraveClientError::ClientError(m) && m@ == detail@),
            },
    {
        match status {
            Some(code) => Self::from_status(code, detail),
            None => BraveClientError::ClientError(detail.to_owned()),
        }
    }
}

/// The text of an HTTP status error carries the decimal status code: the
/// code's digits stand as a contiguous run right after the fixed prefix.
pub proof fn lemma_http_status_text_has_code(status: nat, detail: Seq<char>)
    ensures
        http_status_text(status, detail).subrange(
            "HTTP error "@.len() as int,
            "HTTP error "@.len() + dec_str(status).len() as int,
        ) == dec_str(status),
{
    lemma_dec_str_digits(status);
    assert(http_status_text(status, detail).subrange(
        "HTTP error "@.len() as int,
        "HTTP error "@.len() + dec_str(status).len() as int,
    ) =~= dec_str(status));
}

} // verus!
