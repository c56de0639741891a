//! The one-line version text.

use vstd::prelude::*;
use vstd::string::StringExecFns;

use crate::schemas::VersionInfo;

verus! {

/// The version text: name, version, build time, branch and commit,
/// separated by single spaces.
pub open spec fn version_text(info: VersionInfo) -> Seq<char> {
    info.name@ + " "@ + info.version@ + " "@ + info.build_time@ + " "@ + info.branch@ + " "@
        + info.commit@
}

/// Return version info string.
pub fn version_info(info: &VersionInfo) -> (s: String)
    ensures
        s@ == version_text(*info),
{
    String::from_str(info.name).concat(" ").concat(info.version).concat(" ").concat(
        info.build_time,
    ).concat(" ").concat(info.branch).concat(" ").concat(info.commit)
}

} // verus!
