//! Twitter pages: finding the address of a post's video in its HTML.

use vstd::prelude::*;
use crate::validator::{regex_capture, regex_compiles, Pattern};

verus! {

/// Why no video address came out of a page.
#[derive(PartialEq, Eq, Structural, Clone, Copy, Debug)]
pub enum DownloadError {
    /// The regex crate refused the page pattern.
    InvalidPattern,
    /// The page names no video.
    NoVideoFound,
}

/// The pattern of the page's Open Graph video tag; its first group is the
/// address.
pub open spec fn og_video_pattern() -> Seq<char> {
    r#"property="og:video" content="(.*?)""#@
}

/// A character with a meaning of its own in a regex pattern.
pub open spec fn is_regex_operator(c: char) -> bool {
    c == '.' || c == '*' || c == '+' || c == '?' || c == '(' || c == ')' || c == '[' || c == ']'
        || c == '{' || c == '}' || c == '|' || c == '^' || c == '$' || c == '\\'
}

/// The page pattern takes the address only from a tag whose property is
/// exactly `og:video`: it begins with the plain text
/// `property="og:video" content="` (no regex operator in it), and what
/// follows is the address group and the closing quote.
pub proof fn law_only_og_video_tags()
    ensures
        og_video_pattern() == r#"property="og:video" content=""#@ + r#"(.*?)""#@,
        forall|i: int|
            0 <= i < r#"property="og:video" content=""#@.len() ==> !is_regex_operator(
                #[trigger] r#"property="og:video" content=""#@[i],
            ),
{
    reveal_strlit(r#"property="og:video" content="(.*?)""#);
    reveal_strlit(r#"property="og:video" content=""#);
    reveal_strlit(r#"(.*?)""#);
    assert(og_video_pattern() =~= r#"property="og:video" content=""#@ + r#"(.*?)""#@);
}

/// The video address that `page` names, or why there is none.
pub open spec fn spec_video_url(page: Seq<char>) -> Result<Seq<char>, DownloadError> {
    if !regex_compiles(og_video_pattern()) {
        Err(DownloadError::InvalidPattern)
    } else {
        match regex_capture(og_video_pattern(), page, 1) {
            Some(address) => Ok(address),
            None => Err(DownloadError::NoVideoFound),
        }
    }
}

impl DownloadError {
    /// The message the downloader reports.
    pub fn message(&self) -> (r: &'static str)
        ensures
            *self == DownloadError::NoVideoFound ==> r@ == "No video found"@,
            *self == DownloadError::InvalidPattern ==> r@ == "invalid video pattern"@,
    {
        match self {
            DownloadError::InvalidPattern => "invalid video pattern",
            DownloadError::NoVideoFound => "No video found",
        }
    }
}

/// Downloads the video of a Twitter post.
pub struct TwitterDownloader;

impl TwitterDownloader {
    /// The address of the video that the page `page` names in its
    /// `og:video` tag.
    pub fn video_url(&self, page: &str) -> (r: Result<String, DownloadError>)
        ensures
            match r {
                Ok(s) => spec_video_url(page@) == Ok::<Seq<char>, DownloadError>(s@),
                Err(e) => spec_video_url(page@) == Err::<Seq<char>, DownloadError>(e),
            },
    {
        match Pattern::compile(r#"property="og:video" content="(.*?)""#) {
            Err(_) => Err(DownloadError::InvalidPattern),
            Ok(p) => match p.capture(page, 1) {
                Some(address) => Ok(address),
                None => Err(DownloadError::NoVideoFound),
            },
        }
    }
}

} // verus!
