//! Error taxonomy: configuration errors surface at construction, transport
//! and protocol errors surface from uploads.  Span-export failures are never
//! propagated to the span's owner; callers that upload metrics receive these
//! values directly.

use vstd::prelude::*;

use crate::strutil::dec_str;
use crate::strutil::u64_to_dec;

verus! {

/// What can go wrong while configuring the tracer or talking to a collector.
#[derive(Debug)]
pub enum TracerError {
    /// A malformed endpoint was handed to the tracer's constructor; noticed
    /// before any network activity.
    ConfigError { message: String },
    /// The connection, send or receive itself failed.
    TransportError { message: String },
    /// The collector answered, but not with HTTP 200; carries the status code
    /// and the response body.
    ProtocolError { status: u16, body: String },
}

impl TracerError {
    /// The rendered description of a protocol error: the status in decimal,
    /// one space, then the response body.
    pub open spec fn spec_protocol_message(status: u16, body: Seq<char>) -> Seq<char> {
        "upload failed: "@ + dec_str(status as nat) + " "@ + body
    }

    /// A human-readable description; holds the decimal status code and the
    /// response body for protocol errors.
    pub fn message(&self) -> (r: String)
        ensures
            r@ == match *self {
                TracerError::ConfigError { message: ref m } => "invalid endpoint: "@ + m@,
                TracerError::TransportError { message: ref m } => "transport failed: "@ + m@,
                TracerError::ProtocolError { status, body: ref b } => Self::spec_protocol_message(
                    status,
                    b@,
                ),
            },
    {
        match self {
            TracerError::ConfigError { message } => {
                let mut r = "invalid endpoint: ".to_owned();
                r.append(message.as_str());
                r
            },
            TracerError::TransportError { message } => {
                let mut r = "transport failed: ".to_owned();
                r.append(message.as_str());
                r
            },
            TracerError::ProtocolError { status, body } => {
                let mut r = "upload failed: ".to_owned();
                r.append(u64_to_dec(*status as u64).as_str());
                r.append(" ");
                r.append(body.as_str());
                r
            },
        }
    }

    /// True of configuration errors alone.
    pub fn is_config_error(&self) -> (r: bool)
        ensures
            r == (self is ConfigError),
    {
        match self {
            TracerError::ConfigError { .. } => true,
            _ => false,
        }
    }

    /// True of protocol errors alone.
    pub fn is_protocol_error(&self) -> (r: bool)
        ensures
            r == (self is ProtocolError),
    {
        match self {
            TracerError::ProtocolError { .. } => true,
            _ => false,
        }
    }
}

} // verus!
