//! The error kinds that the catalog service reports to its callers.

use std::io::ErrorKind;
use vstd::prelude::*;

verus! {

/// The kind of a failed operating system call, as `std::io` reports it.
#[verifier::external_type_specification]
pub struct ExErrorKind(ErrorKind);

/// Relies on base64's `DecodeError`: the error of a failed decoding.
#[verifier::external_type_specification]
#[verifier::external_body]
pub struct ExDecodeError(base64::DecodeError);

/// The compact error kind that crosses the service boundary.
///
/// Richer diagnostics (operating system messages, parser positions) stay on
/// the side that observed them; only the kind is reported.
#[derive(Debug, Clone, Copy, PartialEq, Eq, Structural)]
pub enum Error {
    /// The user provided arguments are malformed
    Arguments,
    /// A file could not be found or opened
    FileOpen,
    /// A file with that name already exists
    AlreadyExists,
    /// An uploaded file has an invalid type
    InvalidFileType,
    /// Could not connect to server
    Network,
    /// Invalid file format
    InvalidFormat,
    /// No matching results
    NothingFound,
    /// Conversion error, decoding, ...
    Conversion,
}

/// The HTTP status that reports an error kind: bad request for validation
/// failures, not found for missing files, service unavailable for network
/// failures.
pub open spec fn status_of(e: Error) -> u16 {
    match e {
        Error::Arguments | Error::InvalidFormat | Error::InvalidFileType | Error::AlreadyExists
        | Error::Conversion => 400,
        Error::FileOpen | Error::NothingFound => 404,
        Error::Network => 503,
    }
}

impl Error {
    /// The HTTP status code with which this error is answered.
    pub fn status(&self) -> (r: u16)
        ensures
            r == status_of(*self),
    {
        match self {
            Error::Arguments | Error::InvalidFormat | Error::InvalidFileType
            | Error::AlreadyExists | Error::Conversion => 400,
            Error::FileOpen | Error::NothingFound => 404,
            Error::Network => 503,
        }
    }
}

/// Whether a failed call lost its connection rather than a file.
pub open spec fn is_connection_kind(k: ErrorKind) -> bool {
    ||| k == ErrorKind::ConnectionRefused
    ||| k == ErrorKind::ConnectionReset
    ||| k == ErrorKind::ConnectionAborted
    ||| k == ErrorKind::NotConnected
    ||| k == ErrorKind::AddrInUse
    ||| k == ErrorKind::AddrNotAvailable
}

impl Error {
    /// The kind under which a failed filesystem or socket call is reported:
    /// connection-class failures are `Network`, every other one `FileOpen`.
    pub fn from_io_kind(kind: ErrorKind) -> (r: Error)
        ensures
            r == (if is_connection_kind(kind) {
                Error::Network
            } else {
                Error::FileOpen
            }),
    {
        match kind {
            ErrorKind::ConnectionRefused | ErrorKind::ConnectionReset
            | ErrorKind::ConnectionAborted | ErrorKind::NotConnected | ErrorKind::AddrInUse
            | ErrorKind::AddrNotAvailable => Error::Network,
            _ => Error::FileOpen,
        }
    }
}

impl From<base64::DecodeError> for Error {
    fn from(e: base64::DecodeError) -> (r: Error)
        ensures
            r == Error::Conversion,
    {
        Error::Conversion
    }
}

impl vstd::std_specs::convert::FromSpecImpl<base64::DecodeError> for Error {
    open spec fn obeys_from_spec() -> bool {
        true
    }

    open spec fn from_spec(e: base64::DecodeError) -> Error {
        Error::Conversion
    }
}

/// The name under which an error kind crosses the service boundary.
pub open spec fn name_of(e: Error) -> Seq<char> {
    match e {
        Error::Arguments => "Arguments"@,
        Error::FileOpen => "FileOpen"@,
        Error::AlreadyExists => "AlreadyExists"@,
        Error::InvalidFileType => "InvalidFileType"@,
        Error::Network => "Network"@,
        Error::InvalidFormat => "InvalidFormat"@,
        Error::NothingFound => "NothingFound"@,
        Error::Conversion => "Conversion"@,
    }
}

impl Error {
    /// The name under which this kind crosses the service boundary.
    pub fn name(&self) -> (r: &'static str)
        ensures
            r@ == name_of(*self),
    {
        match self {
            Error::Arguments => "Arguments",
            Error::FileOpen => "FileOpen",
            Error::AlreadyExists => "AlreadyExists",
            Error::InvalidFileType => "InvalidFileType",
            Error::Network => "Network",
            Error::InvalidFormat => "InvalidFormat",
            Error::NothingFound => "NothingFound",
            Error::Conversion => "Conversion",
        }
    }
}

} // verus!
