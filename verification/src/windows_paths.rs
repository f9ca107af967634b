//! Path presentation.
//!
//! Canonicalized Windows paths come back with the verbatim prefix `\\?\`,
//! which confuses the programs the path is handed to and the user it is
//! shown to; it is stripped before the path leaves the launcher.  The
//! canonicalization itself is the operating system's; only the presentation
//! is done here.

use vstd::prelude::*;

verus! {

/// `s` without a leading verbatim prefix `\\?\`.
pub open spec fn unc_stripped(s: Seq<char>) -> Seq<char> {
    if s.len() >= 4 && s[0] == '\\' && s[1] == '\\' && s[2] == '?' && s[3] == '\\' {
        s.subrange(4, s.len() as int)
    } else {
        s
    }
}

/// Strip the verbatim prefix `\\?\` off a canonicalized path, if present.
pub fn strip_unc_prefix(path: &str) -> (stripped: String)
    ensures
        stripped@ == unc_stripped(path@),
{
    let len = path.unicode_len();
    if len >= 4 && path.get_char(0) == '\\' && path.get_char(1) == '\\' && path.get_char(2) == '?'
        && path.get_char(3) == '\\' {
        let suffix = path.substring_char(4, len);
        suffix.to_owned()
    } else {
        path.to_owned()
    }
}

} // verus!
