//! Error taxonomy shared by every transport operation.

use vstd::prelude::*;
use vstd::string::StringExecFns;

verus! {

/// Declares `std::io::Error` as an opaque outside type, so that the
/// conversion below can take one.
#[verifier::external_type_specification]
#[verifier::external_body]
pub struct ExIoError(std::io::Error);

/// Why a transport operation failed.
#[derive(Debug)]
pub enum TransportError {
    /// An operation was attempted while the transport is not connected.
    Disconnected,
    /// A server or session invariant was violated.
    Protocol(String),
    /// The caller-supplied configuration is malformed.
    InvalidConfig(String),
    /// The underlying stream or security layer failed.
    Io(String),
}

/// The human-readable text that [`TransportError::message`] renders.
pub open spec fn error_text(e: TransportError) -> Seq<char> {
    match e {
        TransportError::Disconnected => "transport disconnected"@,
        TransportError::Protocol(detail) => "protocol error: "@ + detail@,
        TransportError::InvalidConfig(detail) => "invalid config: "@ + detail@,
        TransportError::Io(detail) => "io error: "@ + detail@,
    }
}

impl From<std::io::Error> for TransportError {
    /// A stream failure becomes an `Io` error carrying its rendered text.
    fn from(error: std::io::Error) -> (r: Self) {
        TransportError::Io(error.to_string())
    }
}

impl vstd::std_specs::convert::FromSpecImpl<std::io::Error> for TransportError {
    open spec fn obeys_from_spec() -> bool {
        false
    }

    open spec fn from_spec(error: std::io::Error) -> TransportError {
        arbitrary()
    }
}

impl TransportError {
    /// Renders the error as the stable human-readable text that event
    /// consumers display.
    pub fn message(&self) -> (r: String)
        ensures
            r@ == error_text(*self),
    {
        match self {
            TransportError::Disconnected => "transport disconnected".to_owned(),
            TransportError::Protocol(detail) => "protocol error: ".to_owned().concat(
                detail.as_str(),
            ),
            TransportError::InvalidConfig(detail) => "invalid config: ".to_owned().concat(
                detail.as_str(),
            ),
            TransportError::Io(detail) => "io error: ".to_owned().concat(detail.as_str()),
        }
    }
}

} // verus!
