//! Names used by the toolchain fetcher: the release download URL and
//! the per-target binary file name. The download itself (network fetch,
//! archive extraction, permission bits) is outside work performed by
//! the driver when the plan says the toolchain is missing.

use vstd::prelude::*;
use crate::text::push_chars;

verus! {

/// The release URL for one toolchain version and platform archive:
/// fixed host, then the version, then the archive name.
pub open spec fn spec_release_url(ucm_version: Seq<char>, archive_name: Seq<char>) -> Seq<char> {
    "https://github.com/unisonweb/unison/releases/download/"@ + ucm_version + "/"@ + archive_name
}

/// Builds the release URL for one toolchain version and platform
/// archive name.
pub fn release_url(ucm_version: &Vec<char>, archive_name: &Vec<char>) -> (v: Vec<char>)
    ensures
        v@ == spec_release_url(ucm_version@, archive_name@),
{
    let mut out = crate::text::str_to_chars(
        "https://github.com/unisonweb/unison/releases/download/",
    );
    push_chars(&mut out, ucm_version);
    let sep = crate::text::str_to_chars("/");
    push_chars(&mut out, &sep);
    push_chars(&mut out, archive_name);
    out
}

/// The file name under which the toolchain binary for one target
/// triple is kept in the binaries directory.
pub open spec fn spec_toolchain_binary_name(target_triple: Seq<char>) -> Seq<char> {
    "ucm-"@ + target_triple
}

/// Builds the toolchain binary file name for one target triple.
pub fn toolchain_binary_name(target_triple: &Vec<char>) -> (v: Vec<char>)
    ensures
        v@ == spec_toolchain_binary_name(target_triple@),
{
    let mut out = crate::text::str_to_chars("ucm-");
    push_chars(&mut out, target_triple);
    out
}

} // verus!
