//! The version string the tool displays.
//!
//! The build-time metadata (package version, commit hash, branch name, and
//! whether version control was available at all) is read at the process edge
//! and handed in here as plain values.

use vstd::prelude::*;

verus! {

/// The version string shown to the user: when version-control metadata is
/// available, the base version followed by the commit hash and branch name in
/// parentheses; otherwise the base version alone.
pub open spec fn fancy_version(
    base: Seq<char>,
    git_available: bool,
    sha: Seq<char>,
    branch: Seq<char>,
) -> Seq<char> {
    if git_available {
        base + " ("@ + sha + " "@ + branch + ")"@
    } else {
        base
    }
}

/// Builds the displayed version string from the build-time metadata.
pub fn get_version_fancy(
    base_version: &str,
    git_available: bool,
    git_sha: &str,
    git_branch: &str,
) -> (r: String)
    ensures
        r@ == fancy_version(base_version@, git_available, git_sha@, git_branch@),
{
    let mut s = base_version.to_owned();
    if git_available {
        s.append(" (");
        s.append(git_sha);
        s.append(" ");
        s.append(git_branch);
        s.append(")");
    }
    s
}

} // verus!
