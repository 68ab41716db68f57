//! Classification of uploaded payloads by their binary signature.

use crate::text::{has_prefix, starts_with};
use vstd::prelude::*;

verus! {

/// The `(extension, MIME type)` that the `infer` crate's signature table
/// assigns to a payload, if any signature matches.
pub uninterp spec fn sniffed(data: Seq<u8>) -> Option<(Seq<char>, Seq<char>)>;

/// Relies on `infer::get`, with `Type::extension` and `Type::mime_type`: the
/// first signature of infer's fixed table that matches the bytes, read from
/// the bytes alone.
#[verifier::external_body]
pub(crate) fn infer_ext(data: &[u8]) -> (r: Option<(String, String)>)
    ensures
        match r {
            Some((ext, mime)) => sniffed(data@) == Some((ext@, mime@)),
            None => sniffed(data@) is None,
        },
{
    infer::get(data).map(|info| (info.extension().to_string(), info.mime_type().to_string()))
}

/// The MIME category of audio payloads.
pub open spec fn is_audio_mime(mime: Seq<char>) -> bool {
    has_prefix(mime, seq!['a', 'u', 'd', 'i', 'o', '/'])
}

/// Whether a payload's signature marks it as audio.
pub open spec fn sniffs_as_audio(data: Seq<u8>) -> bool {
    match sniffed(data) {
        Some((_, mime)) => is_audio_mime(mime),
        None => false,
    }
}

/// The extension that a payload's signature gives it.
pub open spec fn sniffed_ext(data: Seq<u8>) -> Seq<char> {
    match sniffed(data) {
        Some((ext, _)) => ext,
        None => Seq::empty(),
    }
}

/// The extension of an audio payload, given what its signature was
/// classified as: `None` where no signature matched or the MIME type is not
/// audio.
pub fn audio_ext_of(kind: Option<(String, String)>) -> (r: Option<String>)
    ensures
        match kind {
            Some((ext, mime)) => if is_audio_mime(mime@) {
                r == Some(ext)
            } else {
                r is None
            },
            None => r is None,
        },
{
    match kind {
        Some((ext, mime)) => {
            let audio = "audio/";
            proof {
                reveal_strlit("audio/");
            }
            assert(audio@ =~= seq!['a', 'u', 'd', 'i', 'o', '/']);
            if starts_with(mime.as_str(), audio) {
                Some(ext)
            } else {
                None
            }
        },
        None => None,
    }
}

/// Classifies an audio payload by its signature: its extension, or `None`
/// where the payload carries no signature or one that is not audio.
pub fn sniff_audio(data: &[u8]) -> (r: Option<String>)
    ensures
        match r {
            Some(ext) => sniffs_as_audio(data@) && ext@ == sniffed_ext(data@),
            None => !sniffs_as_audio(data@),
        },
{
    audio_ext_of(infer_ext(data))
}

} // verus!
