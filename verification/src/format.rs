//! Archive-format classification.
//!
//! The decoding strategy for a package archive is derived purely from the
//! source URL's trailing path segment: a name ending in `.tar.bz2` is a
//! bzip2-compressed tar stream, one ending in `.conda` is a zip-based conda
//! container, and anything else is unsupported.  Because neither suffix
//! contains a path separator, testing the whole URL for the suffix is the
//! same as testing its final `/`-separated segment.

use crate::errors::HarnessError;
use vstd::prelude::*;

verus! {

/// The decoding strategy for a package archive.
#[derive(Clone, Copy, Debug, PartialEq, Eq, Structural)]
pub enum FormatTag {
    /// A bzip2-compressed tar stream (suffix `.tar.bz2`).
    TarBz2,
    /// A zip-based conda container (suffix `.conda`).
    Conda,
}

/// `suffix` occurs at the very end of `s`.
pub open spec fn is_suffix_of(suffix: Seq<char>, s: Seq<char>) -> bool {
    &&& suffix.len() <= s.len()
    &&& s.subrange(s.len() - suffix.len(), s.len() as int) == suffix
}

/// The format denoted by a source URL, if any.
pub open spec fn spec_classify(url: Seq<char>) -> Option<FormatTag> {
    if is_suffix_of(".tar.bz2"@, url) {
        Some(FormatTag::TarBz2)
    } else if is_suffix_of(".conda"@, url) {
        Some(FormatTag::Conda)
    } else {
        None
    }
}

/// Relies on `str::ends_with`: it returns true exactly when the given
/// pattern matches a suffix of the string slice.
#[verifier::external_body]
fn str_ends_with(s: &str, suffix: &str) -> (r: bool)
    ensures
        r == is_suffix_of(suffix@, s@),
{
    s.ends_with(suffix)
}

/// Classifies the archive format from the source URL, failing with
/// `UnsupportedFormat` when the trailing path segment matches no known
/// archive convention.
pub fn classify_url(url: &str) -> (r: Result<FormatTag, HarnessError>)
    ensures
        r == match spec_classify(url@) {
            Some(tag) => Ok::<FormatTag, HarnessError>(tag),
            None => Err::<FormatTag, HarnessError>(HarnessError::UnsupportedFormat),
        },
{
    if str_ends_with(url, ".tar.bz2") {
        Ok(FormatTag::TarBz2)
    } else if str_ends_with(url, ".conda") {
        Ok(FormatTag::Conda)
    } else {
        Err(HarnessError::UnsupportedFormat)
    }
}

} // verus!
