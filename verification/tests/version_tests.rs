use install_loader::version::{is_developer_build, tag_from_ref, travis_tag};

#[test]
fn travis_tag_of_unstamped_build() {
    assert_eq!(travis_tag(), "DEVELOPER_BUILD");
}

#[test]
fn unstamped_build_is_developer_build() {
    assert!(is_developer_build());
}

#[test]
fn tag_is_the_part_after_the_last_slash() {
    assert_eq!(tag_from_ref("refs/tags/v1.2.3"), "v1.2.3");
    assert_eq!(tag_from_ref("refs/tags/DEVELOPER_BUILD"), "DEVELOPER_BUILD");
}

#[test]
fn tag_of_slashless_ref_is_the_whole_ref() {
    assert_eq!(tag_from_ref("v7"), "v7");
    assert_eq!(tag_from_ref(""), "");
}

#[test]
fn tag_of_ref_ending_in_slash_is_empty() {
    assert_eq!(tag_from_ref("refs/tags/"), "");
}
