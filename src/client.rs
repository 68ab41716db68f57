//! The client's view of the service: where requests go, how failed replies
//! are read, and the messages shown for the service's error kinds.

use crate::text::text_eq;
use vstd::prelude::*;

verus! {

/// The address of the catalog service.
pub const BASE_URL: &'static str = "http://127.0.0.1:5000";

/// Why a request failed on the client side.
#[derive(Debug, Clone, PartialEq, Eq)]
pub enum Error {
    /// The request could not be made or its reply not read; the transport's message.
    Http(String),
    /// The service answered with a failure; what it reported.
    Custom(String),
}

impl From<String> for Error {
    fn from(err: String) -> (r: Error)
        ensures
            r == Error::Custom(err),
    {
        Error::Custom(err)
    }
}

impl vstd::std_specs::convert::FromSpecImpl<String> for Error {
    open spec fn obeys_from_spec() -> bool {
        true
    }

    open spec fn from_spec(err: String) -> Error {
        Error::Custom(err)
    }
}

/// The address of the catalog's resource collection.
pub open spec fn resource_url_spec() -> Seq<char> {
    BASE_URL@ + "/api/resource"@
}

/// The address of the file at `path`, relative to the service's root.
pub open spec fn file_url_spec(path: Seq<char>) -> Seq<char> {
    BASE_URL@ + "/"@ + path
}

/// The address of the catalog's resource collection.
pub fn resource_url() -> (r: String)
    ensures
        r@ == resource_url_spec(),
{
    let mut r = String::from_str(BASE_URL);
    r.append("/api/resource");
    r
}

/// The address of the file at `path`, relative to the service's root.
pub fn file_url(path: &str) -> (r: String)
    ensures
        r@ == file_url_spec(path@),
{
    let mut r = String::from_str(BASE_URL);
    r.append("/");
    r.append(path);
    r
}

/// What a failed reply reports: the error kind where the body is one as a
/// JSON string (`"AlreadyExists"`), `NothingFound` for an empty not-found
/// reply, else the body as it is.
pub open spec fn failure_text(status: u16, body: Seq<char>) -> Seq<char> {
    if body.len() >= 2 && body[0] == '"' && body.last() == '"' {
        body.subrange(1, body.len() - 1)
    } else if body.len() == 0 && status == 404 {
        "NothingFound"@
    } else {
        body
    }
}

/// Reads a failed reply with status `status` and body `body`.
pub fn reply_failure(status: u16, body: &str) -> (r: Error)
    ensures
        r matches Error::Custom(t) && t@ == failure_text(status, body@),
{
    let n = body.unicode_len();
    if n >= 2 && body.get_char(0) == '"' && body.get_char(n - 1) == '"' {
        Error::Custom(String::from_str(body.substring_char(1, n - 1)))
    } else if n == 0 && status == 404 {
        Error::Custom(String::from_str("NothingFound"))
    } else {
        Error::Custom(String::from_str(body))
    }
}

/// The message shown for what the service reported.
pub open spec fn message_of(error: Seq<char>) -> Seq<char> {
    if error == "Arguments"@ {
        "The user provided arguments are malformed"@
    } else if error == "FileOpen"@ {
        "A file could not be found or opened"@
    } else if error == "AlreadyExists"@ {
        "A file with that name already exists"@
    } else if error == "InvalidFileType"@ {
        "An uploaded file has an invalid type"@
    } else if error == "Network"@ {
        "Could not connect to server"@
    } else if error == "InvalidFormat"@ {
        "Invalid file format"@
    } else if error == "NothingFound"@ {
        "No matching results"@
    } else if error == "Conversion"@ {
        "Conversion error, decoding, ..."@
    } else {
        "An unknown error has occurred.\nTry refreshing the page!"@
    }
}

/// The message shown for what the service reported: a description of the
/// error kind it names, or a generic one for anything else.
pub fn error_message(error: &str) -> (r: String)
    ensures
        r@ == message_of(error@),
{
    let text = if text_eq(error, "Arguments") {
        "The user provided arguments are malformed"
    } else if text_eq(error, "FileOpen") {
        "A file could not be found or opened"
    } else if text_eq(error, "AlreadyExists") {
        "A file with that name already exists"
    } else if text_eq(error, "InvalidFileType") {
        "An uploaded file has an invalid type"
    } else if text_eq(error, "Network") {
        "Could not connect to server"
    } else if text_eq(error, "InvalidFormat") {
        "Invalid file format"
    } else if text_eq(error, "NothingFound") {
        "No matching results"
    } else if text_eq(error, "Conversion") {
        "Conversion error, decoding, ..."
    } else {
        "An unknown error has occurred.\nTry refreshing the page!"
    };
    String::from_str(text)
}

} // verus!
