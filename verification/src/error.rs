//! Error types: one per failure surface (connecting, one command exchange,
//! decoding a response block).

use vstd::prelude::*;

verus! {

/// Failure of one command/response exchange on an established session.
#[derive(Clone, Copy, Debug, PartialEq, Eq, Structural)]
pub enum MPDError {
    /// The command line could not be written to the server.
    FailedWrite,
    /// The server answered the command with an `ACK [` error block.
    FailedCommand,
    /// The stream ended or timed out before the closing `OK` sentinel.
    Truncated,
}

impl MPDError {
    /// The fixed description text of each variant.
    pub open spec fn spec_message(self) -> Seq<char> {
        match self {
            MPDError::FailedWrite => "Failed to write to socket"@,
            MPDError::FailedCommand => "Failed to execute the command"@,
            MPDError::Truncated => "Response ended before the OK sentinel"@,
        }
    }

    /// A human-readable description, one fixed text per variant.
    pub fn message(&self) -> (r: String)
        ensures
            r@ == self.spec_message(),
    {
        match self {
            MPDError::FailedWrite => "Failed to write to socket".to_owned(),
            MPDError::FailedCommand => "Failed to execute the command".to_owned(),
            MPDError::Truncated => "Response ended before the OK sentinel".to_owned(),
        }
    }
}

/// Failure to establish a session.
#[derive(Clone, Copy, Debug, PartialEq, Eq, Structural)]
pub enum ConnectError {
    /// The stream could not be opened at all.
    Unreachable,
    /// The server's greeting was missing or did not carry the expected prefix.
    HandshakeFailed,
}

/// Failure to decode an otherwise successful response block.
#[derive(Clone, Copy, Debug, PartialEq, Eq, Structural)]
pub enum DecodeError {
    /// A field the caller declared mandatory was absent from the block.
    MissingRequiredField,
}

/// Turns an optional decoded field into a hard requirement: absence of a
/// field is tolerated by every decoder, so a caller that cannot proceed
/// without one declares that here.
pub fn require_field<T>(field: Option<T>) -> (r: Result<T, DecodeError>)
    ensures
        field is Some ==> r is Ok && r->Ok_0 == field->0,
        field is None ==> r is Err && r->Err_0 == DecodeError::MissingRequiredField,
{
    match field {
        Some(v) => Ok(v),
        None => Err(DecodeError::MissingRequiredField),
    }
}

} // verus!
