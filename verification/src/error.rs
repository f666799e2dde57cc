//! The failures that the protocol layer reports.

use vstd::prelude::*;

verus! {

/// Why a text or a structured value could not be read as the record that was
/// asked of it.
#[derive(Clone, Copy, Debug, PartialEq, Eq, Structural)]
pub enum DecodeError {
    /// The text is not a structured value at all.
    Syntax,
    /// A sequence was expected and the value is none.
    NotAnArray,
    /// A record was expected and the value is no object.
    NotAnObject,
    /// A required field is absent.
    MissingField,
    /// A field is present and holds a value of the wrong kind.
    WrongType,
    /// A whole number lies outside the range of its field.
    OutOfRange,
    /// A name is none of those that an enumeration has.
    UnknownName,
    /// An object has the shape of no kind of part.
    UnrecognizedPart,
    /// A session came without an identifier.
    EmptyIdentifier,
}

/// What a result is in the model: the model of its value, or its error.
pub open spec fn lift<T: DeepView>(r: Result<T, DecodeError>) -> Result<T::V, DecodeError> {
    match r {
        Ok(t) => Ok(t.deep_view()),
        Err(e) => Err(e),
    }
}

/// What a protocol operation reports when it fails. No failure ends the
/// process, and each leaves the session manager in a defined state.
#[derive(Clone, Debug, PartialEq)]
pub enum ProtocolError {
    /// The network or the connection failed; the message is the transport's.
    TransportError { message: String },
    /// The service answered a request to create a session with a status
    /// that is no success.
    SessionCreateError { status: u16 },
    /// The service answered a request to terminate a session with a status
    /// that is no success.
    SessionTerminateError { status: u16 },
    /// A session was needed and the one given has an empty identifier.
    InvalidSession,
    /// A response body is no structured data, or not of the expected shape.
    MalformedResponse { cause: DecodeError },
}

/// The model of a [`ProtocolError`].
pub enum ProtocolErrorView {
    TransportError { message: Seq<char> },
    SessionCreateError { status: u16 },
    SessionTerminateError { status: u16 },
    InvalidSession,
    MalformedResponse { cause: DecodeError },
}

impl View for ProtocolError {
    type V = ProtocolErrorView;

    open spec fn view(&self) -> ProtocolErrorView {
        match self {
            ProtocolError::TransportError { message } => ProtocolErrorView::TransportError {
                message: message@,
            },
            ProtocolError::SessionCreateError { status } => ProtocolErrorView::SessionCreateError {
                status: *status,
            },
            ProtocolError::SessionTerminateError {
                status,
            } => ProtocolErrorView::SessionTerminateError { status: *status },
            ProtocolError::InvalidSession => ProtocolErrorView::InvalidSession,
            ProtocolError::MalformedResponse { cause } => ProtocolErrorView::MalformedResponse {
                cause: *cause,
            },
        }
    }
}

/// What a result of a protocol operation is in the model.
pub open spec fn outcome<T: DeepView>(r: Result<T, ProtocolError>) -> Result<
    T::V,
    ProtocolErrorView,
> {
    match r {
        Ok(t) => Ok(t.deep_view()),
        Err(e) => Err(e@),
    }
}

/// A structural failure as the protocol reports it: a malformed response
/// with that failure as its cause.
pub open spec fn malformed<T>(r: Result<T, DecodeError>) -> Result<T, ProtocolErrorView> {
    match r {
        Ok(t) => Ok(t),
        Err(cause) => Err(ProtocolErrorView::MalformedResponse { cause }),
    }
}

} // verus!
