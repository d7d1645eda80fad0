use vstd::prelude::*;

verus! {

/// Errors returned by the extraction API.
///
/// `IoError`, `ParseError` and `Unknown` originate in the wrapped Tika
/// library and are decoded from the status byte of its tagged result
/// envelope. `Utf8Error`, `JniError` and `JniEnvCall` originate in the
/// bridge layer itself.
#[derive(Debug, Clone, PartialEq)]
pub enum Error {
    Unknown(String),
    IoError(String),
    ParseError(String),
    Utf8Error(String),
    JniError(String),
    JniEnvCall(String),
}

impl Error {
    /// The message text carried by this error, whatever its variant.
    pub open spec fn spec_message(self) -> Seq<char> {
        match self {
            Error::Unknown(m) => m@,
            Error::IoError(m) => m@,
            Error::ParseError(m) => m@,
            Error::Utf8Error(m) => m@,
            Error::JniError(m) => m@,
            Error::JniEnvCall(m) => m@,
        }
    }

    /// Returns the message text carried by this error.
    pub fn message(&self) -> (r: String)
        ensures
            r@ == self.spec_message(),
    {
        match self {
            Error::Unknown(m) => m.clone(),
            Error::IoError(m) => m.clone(),
            Error::ParseError(m) => m.clone(),
            Error::Utf8Error(m) => m.clone(),
            Error::JniError(m) => m.clone(),
            Error::JniEnvCall(m) => m.clone(),
        }
    }
}

/// The error that a status byte of the wrapped library's tagged result
/// envelope denotes: 1 is an I/O failure, 2 a parse failure, and any
/// other value is unknown.
pub open spec fn spec_error_from_status(status: i8, message: String) -> Error {
    if status == 1 {
        Error::IoError(message)
    } else if status == 2 {
        Error::ParseError(message)
    } else {
        Error::Unknown(message)
    }
}

/// Decodes the status byte of the wrapped library's tagged result
/// envelope into the matching error, carrying its message.
pub fn error_from_status(status: i8, message: String) -> (r: Error)
    ensures
        r == spec_error_from_status(status, message),
{
    if status == 1 {
        Error::IoError(message)
    } else if status == 2 {
        Error::ParseError(message)
    } else {
        Error::Unknown(message)
    }
}

/// Result type of every extraction operation.
pub type ExtractResult<T> = Result<T, Error>;

} // verus!
