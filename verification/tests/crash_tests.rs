use install_loader::crash::crash_summary;

#[test]
fn crash_summary_names_tag_failure_and_location() {
    let summary = crash_summary(
        &String::from("v1.0"),
        &String::from("index out of bounds"),
        &String::from("src/main.rs:10:5"),
    );
    assert!(summary.starts_with("The 07th-mod Installer has crashed"));
    assert!(summary.contains("Installer Version: [v1.0]"));
    assert!(summary.contains("Thread panicked at 'index out of bounds', src/main.rs:10:5"));
    assert!(summary.ends_with("-----------------------------------\n"));
}

#[test]
fn crash_summary_keeps_the_pieces_in_order() {
    let summary = crash_summary(
        &String::from("DEVELOPER_BUILD"),
        &String::from("boom"),
        &String::from("Panic location unknown."),
    );
    let version_at = summary.find("Installer Version").unwrap();
    let failure_at = summary.find("boom").unwrap();
    let location_at = summary.find("Panic location unknown.").unwrap();
    assert!(version_at < failure_at);
    assert!(failure_at < location_at);
}
