//! Build version tag.
//!
//! Release builds are stamped by the release pipeline with a reference such
//! as `refs/tags/v1.2.3`; the version tag is the part after the last slash.
//! A build carrying no stamp is a developer build and reports the tag
//! `DEVELOPER_BUILD`.  The tag is written into the extraction record after a
//! successful unpack and compared against it on the next run.

use vstd::prelude::*;

verus! {

/// The longest suffix of `s` that contains no `/`: the version tag carried by
/// a build reference.
pub open spec fn tag_of_ref(s: Seq<char>) -> Seq<char>
    decreases s.len(),
{
    if s.len() == 0 {
        s
    } else if s.last() == '/' {
        Seq::<char>::empty()
    } else {
        tag_of_ref(s.drop_last()).push(s.last())
    }
}

/// A reference without any slash is its own tag.
proof fn lemma_tag_of_ref_no_slash(s: Seq<char>)
    requires
        forall|k: int| 0 <= k < s.len() ==> s[k] != '/',
    ensures
        tag_of_ref(s) == s,
    decreases s.len(),
{
    if s.len() > 0 {
        lemma_tag_of_ref_no_slash(s.drop_last());
        assert(tag_of_ref(s.drop_last()).push(s.last()) =~= s);
    } else {
        assert(tag_of_ref(s) =~= s);
    }
}

/// When the last slash stands just before position `i`, the tag is the
/// suffix starting at `i`.
proof fn lemma_tag_of_ref_suffix(s: Seq<char>, i: int)
    requires
        1 <= i <= s.len(),
        s[i - 1] == '/',
        forall|k: int| i <= k < s.len() ==> s[k] != '/',
    ensures
        tag_of_ref(s) == s.subrange(i, s.len() as int),
    decreases s.len(),
{
    if i == s.len() {
        assert(s.last() == '/');
        assert(tag_of_ref(s) =~= s.subrange(i, s.len() as int));
    } else {
        assert(s.last() != '/');
        lemma_tag_of_ref_suffix(s.drop_last(), i);
        assert(s.drop_last().subrange(i, s.drop_last().len() as int).push(s.last()) =~= s.subrange(
            i,
            s.len() as int,
        ));
    }
}

/// The build reference stamped into this binary.  This build carries no
/// release stamp, so no reference is available.
fn build_ref() -> (r: Option<String>)
    ensures
        r is None,
{
    None
}

/// The version tag of a build reference: everything after the last slash, or
/// the whole reference when it has no slash.
pub fn tag_from_ref(github_ref: &str) -> (tag: String)
    ensures
        tag@ == tag_of_ref(github_ref@),
{
    let len = github_ref.unicode_len();
    let mut i: usize = len;
    while i > 0
        invariant
            i <= len,
            len == github_ref@.len(),
            forall|k: int| i <= k < len ==> github_ref@[k] != '/',
        decreases i,
    {
        if github_ref.get_char(i - 1) == '/' {
            let suffix = github_ref.substring_char(i, len);
            proof {
                lemma_tag_of_ref_suffix(github_ref@, i as int);
            }
            return suffix.to_owned();
        }
        i = i - 1;
    }
    proof {
        lemma_tag_of_ref_no_slash(github_ref@);
    }
    github_ref.to_owned()
}

/// The version tag of the current build.  Without a release stamp this is
/// the tag of the developer-build reference.
pub fn travis_tag() -> (tag: String)
    ensures
        tag@ == tag_of_ref("refs/tags/DEVELOPER_BUILD"@),
        tag@ == "DEVELOPER_BUILD"@,
{
    proof {
        reveal_strlit("refs/tags/DEVELOPER_BUILD");
        reveal_strlit("DEVELOPER_BUILD");
        lemma_tag_of_ref_suffix("refs/tags/DEVELOPER_BUILD"@, 10);
        assert("refs/tags/DEVELOPER_BUILD"@.subrange(10, 25) =~= "DEVELOPER_BUILD"@);
    }
    match build_ref() {
        Some(r) => tag_from_ref(r.as_str()),
        None => tag_from_ref("refs/tags/DEVELOPER_BUILD"),
    }
}

/// Whether this is a development build: true exactly when the binary carries
/// no release stamp.
pub fn is_developer_build() -> (dev: bool)
    ensures
        dev == true,
{
    let r = build_ref();
    r.is_none()
}

} // verus!
