use vstd::prelude::*;

verus! {

/// The errors of the repository and of request decoding.
///
/// Payloads are plain text: the storage driver's, the decoder's or the
/// runtime's own description of what went wrong.
#[derive(Debug, Clone)]
pub enum AppError {
    /// The storage layer failed (connection, protocol, encoding).
    MongoDB(String),
    /// An identifier that does not parse; holds the text that was given.
    InvalidObjectId(String),
    /// A request body that does not decode.
    Serialization(String),
    /// A background task failed.
    HandlerError(String),
    /// No record matched the identifier.
    NotFound,
    /// Any other client mistake.
    BadRequest(String),
}

/// The text that an error reads as.
pub open spec fn error_text(e: AppError) -> Seq<char> {
    match e {
        AppError::MongoDB(m) => "MongoDB error: "@ + m@,
        AppError::InvalidObjectId(m) => "Invalid object ID: "@ + m@,
        AppError::Serialization(m) => "Serialization error: "@ + m@,
        AppError::HandlerError(m) => "Handler error: "@ + m@,
        AppError::NotFound => "Not found"@,
        AppError::BadRequest(m) => "Bad request: "@ + m@,
    }
}

impl AppError {
    /// The human-readable description of the error.
    pub fn message(&self) -> (r: String)
        ensures
            r@ == error_text(*self),
    {
        match self {
            AppError::MongoDB(m) => String::from_str("MongoDB error: ").concat(m.as_str()),
            AppError::InvalidObjectId(m) => String::from_str("Invalid object ID: ").concat(m.as_str()),
            AppError::Serialization(m) => String::from_str("Serialization error: ").concat(m.as_str()),
            AppError::HandlerError(m) => String::from_str("Handler error: ").concat(m.as_str()),
            AppError::NotFound => String::from_str("Not found"),
            AppError::BadRequest(m) => String::from_str("Bad request: ").concat(m.as_str()),
        }
    }

    /// Whether this is the "no record matched" error.
    pub fn is_not_found(&self) -> (r: bool)
        ensures
            r == (*self is NotFound),
    {
        match self {
            AppError::NotFound => true,
            _ => false,
        }
    }
}

} // verus!
