//! The one error type that every stage reports through.

use vstd::prelude::*;
use vstd::string::*;
use crate::compose::ComposeError;
use crate::envelope::DecodeError;

verus! {

/// What went wrong, one variant per stage.
#[derive(Clone, Debug, PartialEq)]
pub enum ProxyError {
    /// The origin is missing or not an absolute URL.
    Config,
    /// The input line is not a valid envelope.
    Decode(DecodeError),
    /// The target URL could not be composed under the origin.
    Compose(ComposeError),
    /// A request header name or value is not valid in HTTP.
    InvalidHeader,
    /// The HTTP call failed; the transport's own message.
    Dispatch(String),
    /// A response header value is not text.
    Encoding,
    /// The input line could not be read.
    Input,
}

pub open spec fn decode_message(d: DecodeError) -> Seq<char> {
    match d {
        DecodeError::NotJson => "input is not valid JSON"@,
        DecodeError::NotObject => "input is not a JSON object"@,
        DecodeError::UnknownField => "input has an unknown field"@,
        DecodeError::Missing(_) => "input lacks a required field"@,
        DecodeError::WrongType(_) => "input has a field of the wrong type"@,
        DecodeError::InvalidMethod => "invalid HTTP method"@,
    }
}

/// The human-readable text of an error.
pub open spec fn error_message(e: ProxyError) -> Seq<char> {
    match e {
        ProxyError::Config => "origin is missing or is not an absolute URL"@,
        ProxyError::Decode(d) => decode_message(d),
        ProxyError::Compose(ComposeError::Unresolvable) => "path does not resolve against the origin"@,
        ProxyError::Compose(ComposeError::ForeignAuthority) => "path leaves the origin's host"@,
        ProxyError::InvalidHeader => "invalid request header name or value"@,
        ProxyError::Dispatch(m) => m@,
        ProxyError::Encoding => "response header value is not text"@,
        ProxyError::Input => "unable to read the input line"@,
    }
}

fn decode_text(d: DecodeError) -> (r: String)
    ensures
        r@ == decode_message(d),
{
    match d {
        DecodeError::NotJson => String::from_str("input is not valid JSON"),
        DecodeError::NotObject => String::from_str("input is not a JSON object"),
        DecodeError::UnknownField => String::from_str("input has an unknown field"),
        DecodeError::Missing(_) => String::from_str("input lacks a required field"),
        DecodeError::WrongType(_) => String::from_str("input has a field of the wrong type"),
        DecodeError::InvalidMethod => String::from_str("invalid HTTP method"),
    }
}

impl ProxyError {
    /// The human-readable text of this error.
    pub fn message(&self) -> (r: String)
        ensures
            r@ == error_message(*self),
    {
        match self {
            ProxyError::Config => String::from_str("origin is missing or is not an absolute URL"),
            ProxyError::Decode(d) => decode_text(*d),
            ProxyError::Compose(ComposeError::Unresolvable) => String::from_str("path does not resolve against the origin"),
            ProxyError::Compose(ComposeError::ForeignAuthority) => String::from_str("path leaves the origin's host"),
            ProxyError::InvalidHeader => String::from_str("invalid request header name or value"),
            ProxyError::Dispatch(m) => m.clone(),
            ProxyError::Encoding => String::from_str("response header value is not text"),
            ProxyError::Input => String::from_str("unable to read the input line"),
        }
    }
}

} // verus!
