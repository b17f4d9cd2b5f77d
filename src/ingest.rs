//! The decisions of the HTTP receiver: how a body is to be decoded, and what
//! an ingest failure tells the producer.

use vstd::prelude::*;
use crate::text::{push_text, same_text};

verus! {

/// The content type of protobuf bodies.
pub const PROTOBUF_CONTENT_TYPE: &'static str = "application/x-protobuf";

/// The content type of JSON bodies.
pub const JSON_CONTENT_TYPE: &'static str = "application/json";

/// How a request body is encoded.
#[derive(Debug, Clone, Copy, PartialEq, Eq)]
pub enum BodyFormat {
    Protobuf,
    Json,
}

/// Why an export request was refused; each is answered with status 400.
#[derive(Debug, Clone, PartialEq, Eq)]
pub enum IngestError {
    /// The content type is missing or neither protobuf nor JSON.
    UnsupportedContentType,
    /// The body could not be read.
    UnreadableBody,
    /// The body did not decode; the decoder's own message.
    Undecodable(BodyFormat, String),
}

/// The format that a content type announces, if it is a supported one.
pub open spec fn format_of(content_type: Option<Seq<char>>) -> Option<BodyFormat> {
    match content_type {
        Some(ct) => if ct == PROTOBUF_CONTENT_TYPE@ {
            Some(BodyFormat::Protobuf)
        } else if ct == JSON_CONTENT_TYPE@ {
            Some(BodyFormat::Json)
        } else {
            None
        },
        None => None,
    }
}

/// The view of an optional text.
pub open spec fn opt_text(o: Option<&str>) -> Option<Seq<char>> {
    match o {
        Some(s) => Some(s@),
        None => None,
    }
}

/// The format in which to decode a body with the given content type:
/// protobuf or JSON; any other content type, or none, is refused.
pub fn body_format(content_type: Option<&str>) -> (r: Result<BodyFormat, IngestError>)
    ensures
        format_of(opt_text(content_type)) is Some ==> r == Ok::<BodyFormat, IngestError>(
            format_of(opt_text(content_type))->Some_0,
        ),
        format_of(opt_text(content_type)) is None ==> r == Err::<BodyFormat, IngestError>(
            IngestError::UnsupportedContentType,
        ),
{
    match content_type {
        Some(ct) => {
            let ct = String::from_str(ct);
            if same_text(&ct, PROTOBUF_CONTENT_TYPE) {
                Ok(BodyFormat::Protobuf)
            } else if same_text(&ct, JSON_CONTENT_TYPE) {
                Ok(BodyFormat::Json)
            } else {
                Err(IngestError::UnsupportedContentType)
            }
        },
        None => Err(IngestError::UnsupportedContentType),
    }
}

/// The text that answers an ingest failure.
pub open spec fn error_text(e: IngestError) -> Seq<char> {
    match e {
        IngestError::UnsupportedContentType => "Not supported content type"@,
        IngestError::UnreadableBody => "Failed to read request body"@,
        IngestError::Undecodable(BodyFormat::Protobuf, m) => "Failed to decode protobuf request body: "@
            + m@,
        IngestError::Undecodable(BodyFormat::Json, m) => "Failed to decode json request body: "@
            + m@,
    }
}

impl IngestError {
    /// The text that answers this failure; a decoding failure carries the
    /// decoder's message at its end.
    pub fn message(&self) -> (r: String)
        ensures
            r@ == error_text(*self),
    {
        let mut out = String::new();
        match self {
            IngestError::UnsupportedContentType => push_text(&mut out, "Not supported content type"),
            IngestError::UnreadableBody => push_text(&mut out, "Failed to read request body"),
            IngestError::Undecodable(BodyFormat::Protobuf, m) => {
                push_text(&mut out, "Failed to decode protobuf request body: ");
                push_text(&mut out, m.as_str());
            },
            IngestError::Undecodable(BodyFormat::Json, m) => {
                push_text(&mut out, "Failed to decode json request body: ");
                push_text(&mut out, m.as_str());
            },
        }
        out
    }
}

} // verus!
