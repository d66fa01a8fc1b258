//! Branding statics served at the web root from `public/`.
//!
//! The content-type table doubles as the serve whitelist: a name not in it
//! is refused even when a matching file exists, so the handler can never be
//! pointed at an unexpected path.

use vstd::prelude::*;

use crate::text::{strip_leading_slashes, text_eq, trim_leading_slashes};

verus! {

/// The whitelisted root-level files and their content types.
pub open spec fn spec_content_type(file: Seq<char>) -> Option<Seq<char>> {
    if file == "favicon.ico"@ {
        Some("image/x-icon"@)
    } else if file == "favicon-16x16.png"@ || file == "favicon-32x32.png"@
        || file == "android-chrome-192x192.png"@ || file == "android-chrome-512x512.png"@
        || file == "apple-touch-icon.png"@ {
        Some("image/png"@)
    } else if file == "site.webmanifest"@ {
        Some("application/manifest+json"@)
    } else {
        None
    }
}

/// The content type of a whitelisted root-level public file; `None` for
/// any other name.
pub fn content_type(file: &str) -> (r: Option<&'static str>)
    ensures
        match r {
            Some(m) => spec_content_type(file@) == Some(m@),
            None => spec_content_type(file@) is None,
        },
{
    if text_eq(file, "favicon.ico") {
        Some("image/x-icon")
    } else if text_eq(file, "favicon-16x16.png") || text_eq(file, "favicon-32x32.png")
        || text_eq(file, "android-chrome-192x192.png") || text_eq(file, "android-chrome-512x512.png")
        || text_eq(file, "apple-touch-icon.png") {
        Some("image/png")
    } else if text_eq(file, "site.webmanifest") {
        Some("application/manifest+json")
    } else {
        None
    }
}

/// The file a request path names and its content type, when the name (the
/// path without its leading slashes) is whitelisted; `None` answers 404
/// without touching the disk.
pub fn static_target(path: &str) -> (r: Option<(&str, &'static str)>)
    ensures
        spec_content_type(strip_leading_slashes(path@)) is None <==> r is None,
        r matches Some(t) ==> t.0@ == strip_leading_slashes(path@)
            && spec_content_type(t.0@) == Some(t.1@),
{
    let file = trim_leading_slashes(path);
    match content_type(file) {
        Some(mime) => Some((file, mime)),
        None => None,
    }
}

/// The cache policy of served statics: public, one day.
pub open spec fn cache_policy() -> Seq<char> {
    "public, max-age=86400"@
}

/// The answer to a static-file request.
#[derive(Clone, Debug, PartialEq, Eq)]
pub enum StaticReply {
    /// `200` with the file's bytes, its content type and the cache policy.
    File { bytes: Vec<u8>, content_type: &'static str, cache_control: &'static str },
    /// `404 Not Found`.
    NotFound,
}

/// The answer once the whitelisted file was read (`Some` bytes) or could
/// not be (`None`).
pub fn static_reply(mime: &'static str, read: Option<Vec<u8>>) -> (r: StaticReply)
    ensures
        read is None <==> r is NotFound,
        read matches Some(bytes) ==> (r matches StaticReply::File { bytes: b, content_type, cache_control }
            && b@ == bytes@ && content_type@ == mime@ && cache_control@ == cache_policy()),
{
    match read {
        Some(bytes) => StaticReply::File { bytes, content_type: mime, cache_control: "public, max-age=86400" },
        None => StaticReply::NotFound,
    }
}

} // verus!
