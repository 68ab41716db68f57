//! Catalog records and upload requests.

use vstd::prelude::*;

verus! {

/// One catalog entry: a clip's title, the path of its audio file, and the
/// second (since the Unix epoch) at which it was created.
#[derive(Debug, Clone, PartialEq, Eq)]
pub struct Resource {
    pub title: String,
    pub audio_file: String,
    pub time_stamp: u64,
}

/// An upload request: a title and the clip's bytes, base64-encoded.
#[derive(Debug, Default, Clone, PartialEq, Eq)]
pub struct Files {
    pub title: String,
    pub audio_data: String,
}

impl Files {
    /// Whether the request can be sent: both a title and a payload are given.
    pub fn is_complete(&self) -> (r: bool)
        ensures
            r == (self.title@.len() > 0 && self.audio_data@.len() > 0),
    {
        !self.title.as_str().is_empty() && !self.audio_data.as_str().is_empty()
    }
}

} // verus!
