//! Error taxonomy shared by every part of the library.

use vstd::prelude::*;
use vstd::string::*;

verus! {

/// Every failure the library reports.
#[derive(Debug)]
pub enum Error {
    /// The native setup rejected its configuration or data.
    InitializationFailed { message: String },
    /// Model data is missing, incomplete or could not be installed.
    DataError { message: String },
    /// The native parser signalled failure.
    ParseError { message: String },
    /// A normalization request could not be served.
    NormalizationError { message: String },
    /// Invalid input at the native boundary, such as an embedded NUL byte.
    FfiError { message: String },
    /// A filesystem operation failed.
    IoError { message: String },
    /// A transport-level failure while acquiring data.
    NetworkError { message: String },
}

impl Error {
    /// The human-readable message carried by any error.
    pub open spec fn message_view(&self) -> Seq<char> {
        match self {
            Error::InitializationFailed { message } => message@,
            Error::DataError { message } => message@,
            Error::ParseError { message } => message@,
            Error::NormalizationError { message } => message@,
            Error::FfiError { message } => message@,
            Error::IoError { message } => message@,
            Error::NetworkError { message } => message@,
        }
    }

    /// Creates an initialization error.
    pub fn initialization_failed(message: &str) -> (e: Error)
        ensures
            e is InitializationFailed,
            e.message_view() == message@,
    {
        Error::InitializationFailed { message: message.to_owned() }
    }

    /// Creates a data error.
    pub fn data_error(message: &str) -> (e: Error)
        ensures
            e is DataError,
            e.message_view() == message@,
    {
        Error::DataError { message: message.to_owned() }
    }

    /// Creates a parse error.
    pub fn parse_error(message: &str) -> (e: Error)
        ensures
            e is ParseError,
            e.message_view() == message@,
    {
        Error::ParseError { message: message.to_owned() }
    }

    /// Creates a normalization error.
    pub fn normalization_error(message: &str) -> (e: Error)
        ensures
            e is NormalizationError,
            e.message_view() == message@,
    {
        Error::NormalizationError { message: message.to_owned() }
    }

    /// Creates a boundary error.
    pub fn ffi_error(message: &str) -> (e: Error)
        ensures
            e is FfiError,
            e.message_view() == message@,
    {
        Error::FfiError { message: message.to_owned() }
    }

    /// Creates a filesystem error.
    pub fn io_error(message: &str) -> (e: Error)
        ensures
            e is IoError,
            e.message_view() == message@,
    {
        Error::IoError { message: message.to_owned() }
    }

    /// Creates a network error.
    pub fn network_error(message: &str) -> (e: Error)
        ensures
            e is NetworkError,
            e.message_view() == message@,
    {
        Error::NetworkError { message: message.to_owned() }
    }

    /// The prefix that names the kind of an error when it is shown.
    pub open spec fn kind_prefix(&self) -> Seq<char> {
        match self {
            Error::InitializationFailed { .. } => "Failed to initialize libpostal: "@,
            Error::DataError { .. } => "Data error: "@,
            Error::ParseError { .. } => "Parse error: "@,
            Error::NormalizationError { .. } => "Normalization error: "@,
            Error::FfiError { .. } => "FFI error: "@,
            Error::IoError { .. } => "I/O error: "@,
            Error::NetworkError { .. } => "Network error: "@,
        }
    }

    /// The error as shown to people: its kind, then its message.
    pub fn to_string(&self) -> (r: String)
        ensures
            r@ == self.kind_prefix() + self.message_view(),
    {
        let mut r = String::from_str(
            match self {
                Error::InitializationFailed { .. } => "Failed to initialize libpostal: ",
                Error::DataError { .. } => "Data error: ",
                Error::ParseError { .. } => "Parse error: ",
                Error::NormalizationError { .. } => "Normalization error: ",
                Error::FfiError { .. } => "FFI error: ",
                Error::IoError { .. } => "I/O error: ",
                Error::NetworkError { .. } => "Network error: ",
            },
        );
        r.append(self.message());
        r
    }

    /// The message carried by this error.
    pub fn message(&self) -> (r: &str)
        ensures
            r@ == self.message_view(),
    {
        match self {
            Error::InitializationFailed { message } => message.as_str(),
            Error::DataError { message } => message.as_str(),
            Error::ParseError { message } => message.as_str(),
            Error::NormalizationError { message } => message.as_str(),
            Error::FfiError { message } => message.as_str(),
            Error::IoError { message } => message.as_str(),
            Error::NetworkError { message } => message.as_str(),
        }
    }
}

} // verus!
