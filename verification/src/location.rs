//! The URLs under which videos are kept.
//!
//! A video is known to the cache by the `file:` URL of its file on disk. What
//! a URL means is the `url` crate's business; this module asks it.

use std::path::PathBuf;
use url::Url;
use vstd::prelude::*;

verus! {

/// `std::path::PathBuf`: a path as the system takes it, which need not be
/// text. Nothing is known of its inside.
#[verifier::external_type_specification]
#[verifier::external_body]
pub struct ExPathBuf(PathBuf);

/// What `url::Url::parse` makes of `text`: the URL written out in full, or
/// `None` where `text` is no absolute URL.
pub uninterp spec fn url_normal_form(text: Seq<char>) -> Option<Seq<char>>;

/// Parses `text` with `url::Url::parse` and writes the URL out again.
///
/// Trusted: the outcome depends on `text` alone. It is the URL's
/// serialization, as `String::from` takes it out of the `Url`, or `None`
/// where `parse` returns an error.
#[verifier::external_body]
pub(crate) fn normalize(text: &str) -> (normal: Option<String>)
    ensures
        normal.deep_view() == url_normal_form(text@),
{
    Url::parse(text).ok().map(String::from)
}

/// The file that `url` names on this machine, by `url::Url::to_file_path`.
///
/// Nothing is promised of the outcome: it depends on the platform. It is
/// `None` where `url` does not parse or names no local file.
#[verifier::external_body]
pub(crate) fn local_file(url: &str) -> (path: Option<PathBuf>) {
    Url::parse(url).ok()?.to_file_path().ok()
}

} // verus!
