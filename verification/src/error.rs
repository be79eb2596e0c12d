//! JSON-RPC error codes and the failures of the server itself.

use vstd::prelude::*;

verus! {

/// The errors that the transport answers a call with.
#[derive(Debug, Clone, Copy, PartialEq, Eq, Structural)]
pub enum ErrorCode {
    /// The body is not JSON.
    ParseError,
    /// The body is JSON, but no request.
    InvalidRequest,
    /// No method of that name is registered.
    MethodNotFound,
    /// The method cannot be served over this transport.
    InternalError,
    /// The method's resources are claimed by other calls.
    ServerIsBusy,
    /// The server was configured to refuse batches.
    BatchesNotSupported,
}

impl ErrorCode {
    /// The number that stands in the `code` field of an error object.
    pub open spec fn spec_code(self) -> int {
        match self {
            ErrorCode::ParseError => -32700,
            ErrorCode::InvalidRequest => -32600,
            ErrorCode::MethodNotFound => -32601,
            ErrorCode::InternalError => -32603,
            ErrorCode::ServerIsBusy => -32604,
            ErrorCode::BatchesNotSupported => -32005,
        }
    }

    /// The text that stands in the `message` field of an error object.
    pub open spec fn spec_message(self) -> Seq<char> {
        match self {
            ErrorCode::ParseError => "Parse error"@,
            ErrorCode::InvalidRequest => "Invalid request"@,
            ErrorCode::MethodNotFound => "Method not found"@,
            ErrorCode::InternalError => "Internal error"@,
            ErrorCode::ServerIsBusy => "Server is busy, try again later"@,
            ErrorCode::BatchesNotSupported => "Batched requests are not supported by this server"@,
        }
    }

    pub fn code(&self) -> (c: i32)
        ensures
            c == self.spec_code(),
    {
        match self {
            ErrorCode::ParseError => -32700,
            ErrorCode::InvalidRequest => -32600,
            ErrorCode::MethodNotFound => -32601,
            ErrorCode::InternalError => -32603,
            ErrorCode::ServerIsBusy => -32604,
            ErrorCode::BatchesNotSupported => -32005,
        }
    }

    pub fn message(&self) -> (m: &'static str)
        ensures
            m@ == self.spec_message(),
    {
        match self {
            ErrorCode::ParseError => "Parse error",
            ErrorCode::InvalidRequest => "Invalid request",
            ErrorCode::MethodNotFound => "Method not found",
            ErrorCode::InternalError => "Internal error",
            ErrorCode::ServerIsBusy => "Server is busy, try again later",
            ErrorCode::BatchesNotSupported => "Batched requests are not supported by this server",
        }
    }
}

/// The mathematical value of an [`Error`].
pub enum ErrorView {
    AlreadyStopped,
    Custom(Seq<char>),
    ResourceNameAlreadyTaken(Seq<char>),
    MaxResourcesReached,
    ResourceNameNotFoundForMethod(Seq<char>, Seq<char>),
    ResourceAtCapacity(Seq<char>),
}

/// Why the server could not be configured, started or stopped.
#[derive(Debug, Clone, PartialEq, Eq)]
pub enum Error {
    /// The server has stopped already.
    AlreadyStopped,
    /// A setting was refused; the text says which.
    Custom(String),
    /// A resource of that label is registered already.
    ResourceNameAlreadyTaken(String),
    /// All resource slots are taken.
    MaxResourcesReached,
    /// A method claims a resource, first field, that is not registered; the
    /// second field is the method.
    ResourceNameNotFoundForMethod(String, String),
    /// The method of that name claims more of a resource than the server has.
    ResourceAtCapacity(String),
}

impl View for Error {
    type V = ErrorView;

    open spec fn view(&self) -> ErrorView {
        match self {
            Error::AlreadyStopped => ErrorView::AlreadyStopped,
            Error::Custom(s) => ErrorView::Custom(s@),
            Error::ResourceNameAlreadyTaken(s) => ErrorView::ResourceNameAlreadyTaken(s@),
            Error::MaxResourcesReached => ErrorView::MaxResourcesReached,
            Error::ResourceNameNotFoundForMethod(l, m) => ErrorView::ResourceNameNotFoundForMethod(
                l@,
                m@,
            ),
            Error::ResourceAtCapacity(s) => ErrorView::ResourceAtCapacity(s@),
        }
    }
}

impl Error {
    /// What [`Error::message`] says.
    pub open spec fn spec_message(self) -> Seq<char> {
        match self {
            Error::AlreadyStopped => "Attempted to stop server that is already stopped"@,
            Error::Custom(text) => "Custom error: "@ + text@,
            Error::ResourceNameAlreadyTaken(label) => "Resource name already taken: "@ + label@,
            Error::MaxResourcesReached => "Maximum number of resources reached"@,
            Error::ResourceNameNotFoundForMethod(label, method) => "Resource name `"@ + label@
                + "` not found for method `"@ + method@ + "`"@,
            Error::ResourceAtCapacity(method) => "Resource at capacity: "@ + method@,
        }
    }

    /// The error in words.
    pub fn message(&self) -> (text: String)
        ensures
            text@ == self.spec_message(),
    {
        match self {
            Error::AlreadyStopped => String::from_str(
                "Attempted to stop server that is already stopped",
            ),
            Error::Custom(text) => String::from_str("Custom error: ").concat(text.as_str()),
            Error::ResourceNameAlreadyTaken(label) => String::from_str(
                "Resource name already taken: ",
            ).concat(label.as_str()),
            Error::MaxResourcesReached => String::from_str("Maximum number of resources reached"),
            Error::ResourceNameNotFoundForMethod(label, method) => String::from_str(
                "Resource name `",
            ).concat(label.as_str()).concat("` not found for method `").concat(
                method.as_str(),
            ).concat("`"),
            Error::ResourceAtCapacity(method) => String::from_str("Resource at capacity: ").concat(
                method.as_str(),
            ),
        }
    }
}

} // verus!
