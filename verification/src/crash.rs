//! The crash summary.
//!
//! On an unhandled failure the launcher writes a crash log and echoes its
//! path: a short human-readable summary naming the build's version tag, the
//! failure and where it arose, followed by the full diagnostic trace, which
//! the hosting shell appends.  The summary text is fixed here; catching the
//! failure, formatting its location and writing the file are the shell's.

use vstd::prelude::*;

verus! {

/// The fixed text that opens every crash summary: fallback mode is still
/// available, and where to report the crash.
pub open spec fn crash_preamble() -> Seq<char> {
    "The 07th-mod Installer has crashed, however fallback mode is still available, follow the prompts below!\n\nPlease help us by reporting the error and submitting the crash log\n - on our Discord server: https://discord.gg/pf5VhF9\n - or, as a Github issue: https://github.com/07th-mod/python-patcher/issues\n\n-----------Error Summary-----------\n"@
}

/// The whole summary: the preamble, the build's version tag, and the
/// failure with its location.
pub open spec fn crash_summary_spec(
    version_tag: Seq<char>,
    failure: Seq<char>,
    location: Seq<char>,
) -> Seq<char> {
    crash_preamble() + "Installer Version: ["@ + version_tag + "]\nThread panicked at '"@
        + failure + "', "@ + location + "\n-----------------------------------\n"@
}

/// Build the crash summary for a failure `failure` that arose at
/// `location`, under the build tagged `version_tag`.
pub fn crash_summary(version_tag: &String, failure: &String, location: &String) -> (summary:
    String)
    ensures
        summary@ == crash_summary_spec(version_tag@, failure@, location@),
{
    let mut summary = String::from_str(
        "The 07th-mod Installer has crashed, however fallback mode is still available, follow the prompts below!\n\nPlease help us by reporting the error and submitting the crash log\n - on our Discord server: https://discord.gg/pf5VhF9\n - or, as a Github issue: https://github.com/07th-mod/python-patcher/issues\n\n-----------Error Summary-----------\n",
    );
    summary.append("Installer Version: [");
    summary.append(version_tag.as_str());
    summary.append("]\nThread panicked at '");
    summary.append(failure.as_str());
    summary.append("', ");
    summary.append(location.as_str());
    summary.append("\n-----------------------------------\n");
    proof {
        assert(summary@ =~= crash_summary_spec(version_tag@, failure@, location@));
    }
    summary
}

} // verus!
