use install_loader::extractor::{ArchiveExtractor, ExtractionStatus, WorkerMessage};
use install_loader::worker::{
    conclude_extraction, extraction_record_file_name, extraction_required, run_worker,
    trim_ascii_whitespace, WorkerOutcome,
};
use std::path::Path;

/// A small `.tar.xz` archive holding `python/marker.txt`, built in memory.
fn sample_archive() -> Vec<u8> {
    let mut builder = tar::Builder::new(Vec::new());
    let mut header = tar::Header::new_gnu();
    let contents = b"hello";
    header.set_size(contents.len() as u64);
    header.set_mode(0o644);
    header.set_cksum();
    builder
        .append_data(&mut header, "python/marker.txt", &contents[..])
        .unwrap();
    let tar_bytes = builder.into_inner().unwrap();

    let mut encoder = xz2::write::XzEncoder::new(Vec::new(), 6);
    std::io::Write::write_all(&mut encoder, &tar_bytes).unwrap();
    encoder.finish().unwrap()
}

/// Read a small file back through the tar library (the test harness has no
/// direct file reader).
fn read_file_via_tar(path: &Path) -> Vec<u8> {
    let mut builder = tar::Builder::new(Vec::new());
    builder.append_path_with_name(path, "f").unwrap();
    let bytes = builder.into_inner().unwrap();
    let mut archive = tar::Archive::new(&bytes[..]);
    let mut entry = archive.entries().unwrap().next().unwrap().unwrap();
    let mut contents = Vec::new();
    std::io::Read::read_to_end(&mut entry, &mut contents).unwrap();
    contents
}

#[test]
fn trimming_removes_surrounding_whitespace() {
    assert_eq!(trim_ascii_whitespace(&b"  v1.0 \r\n".to_vec()), b"v1.0");
    assert_eq!(trim_ascii_whitespace(&b"v1.0".to_vec()), b"v1.0");
    assert_eq!(trim_ascii_whitespace(&b" \t \n".to_vec()), b"");
    assert_eq!(trim_ascii_whitespace(&Vec::new()), b"");
}

#[test]
fn extraction_decision_follows_record_tag_and_flags() {
    let tag = b"v1.0".to_vec();
    assert!(extraction_required(&None, &tag, false, false));
    assert!(!extraction_required(&Some(b"v1.0".to_vec()), &tag, false, false));
    assert!(!extraction_required(&Some(b" v1.0 \n".to_vec()), &tag, false, false));
    assert!(extraction_required(&Some(b"v0.9".to_vec()), &tag, false, false));
    assert!(extraction_required(&Some(b"v1.0".to_vec()), &tag, true, false));
    assert!(extraction_required(&Some(b"v1.0".to_vec()), &tag, false, true));
}

#[test]
fn failed_unpack_concludes_without_a_record() {
    let conclusion = conclude_extraction(false, &String::from("target"), &b"v1.0".to_vec());
    assert!(conclusion.record.is_none());
    match conclusion.message {
        WorkerMessage::Error(message) => assert!(message.contains("[target]")),
        _ => panic!("expected the failure report"),
    }
}

#[test]
fn successful_unpack_concludes_with_the_tag_as_record() {
    let conclusion = conclude_extraction(true, &String::from("target"), &b"v1.0".to_vec());
    assert_eq!(conclusion.record.as_deref(), Some(&b"v1.0"[..]));
    assert!(matches!(conclusion.message, WorkerMessage::Finished));
}

#[test]
fn fresh_directory_extracts_and_writes_the_record() {
    let dir = tempfile::tempdir().unwrap();
    let target = dir.path().to_str().unwrap().to_string();
    let archive = sample_archive();
    let tag = b"v1.0".to_vec();

    let mut extractor = ArchiveExtractor::new();
    let sender = extractor.start_extraction().unwrap();
    let outcome = run_worker(&archive, &target, &None, &tag, false, false, &sender);
    assert!(matches!(outcome, WorkerOutcome::Extracted { record_written: true }));

    let mut percentages: Vec<usize> = Vec::new();
    let mut finished = false;
    for _ in 0..100 {
        match extractor.poll_status() {
            ExtractionStatus::Started(Some(p)) => percentages.push(p),
            ExtractionStatus::Started(None) => {}
            ExtractionStatus::Finished => {
                finished = true;
                break;
            }
            ExtractionStatus::NotStarted => panic!("extraction was started"),
            ExtractionStatus::Error(message) => panic!("unexpected error: {}", message),
        }
    }
    assert!(finished);
    for pair in percentages.windows(2) {
        assert!(pair[0] <= pair[1]);
    }
    assert_eq!(percentages.last(), Some(&100));

    assert!(dir.path().join("python/marker.txt").exists());
    let record_path = dir.path().join(extraction_record_file_name());
    assert!(record_path.exists());
    assert_eq!(read_file_via_tar(&record_path), b"v1.0");
}

#[test]
fn matching_record_skips_extraction_without_touching_disk() {
    let dir = tempfile::tempdir().unwrap();
    let target = dir.path().to_str().unwrap().to_string();
    let archive = sample_archive();
    let tag = b"v1.0".to_vec();
    let record = Some(b" v1.0 \n".to_vec());

    let mut extractor = ArchiveExtractor::new();
    let sender = extractor.start_extraction().unwrap();
    let outcome = run_worker(&archive, &target, &record, &tag, false, false, &sender);
    assert!(matches!(outcome, WorkerOutcome::SkippedExtraction));

    assert!(matches!(extractor.poll_status(), ExtractionStatus::Started(Some(100))));
    assert!(matches!(extractor.poll_status(), ExtractionStatus::Started(Some(100))));
    assert!(matches!(extractor.poll_status(), ExtractionStatus::Finished));

    assert!(!dir.path().join("python/marker.txt").exists());
    assert!(!dir.path().join(extraction_record_file_name()).exists());
}

#[test]
fn corrupt_archive_reports_error_and_leaves_no_record() {
    let dir = tempfile::tempdir().unwrap();
    let target = dir.path().to_str().unwrap().to_string();
    let archive = b"this is not an xz stream at all".to_vec();
    let tag = b"v1.0".to_vec();

    let mut extractor = ArchiveExtractor::new();
    let sender = extractor.start_extraction().unwrap();
    let outcome = run_worker(&archive, &target, &None, &tag, false, false, &sender);
    assert!(matches!(outcome, WorkerOutcome::ExtractionFailed));

    let mut saw_error = false;
    for _ in 0..100 {
        match extractor.poll_status() {
            ExtractionStatus::Error(message) => {
                assert!(message.contains("Make sure all installers are closed"));
                assert!(message.contains(&target));
                saw_error = true;
                break;
            }
            ExtractionStatus::Started(_) => {}
            _ => panic!("expected the error report"),
        }
    }
    assert!(saw_error);
    assert!(!dir.path().join(extraction_record_file_name()).exists());
}

#[test]
fn mismatched_record_extracts_again() {
    let dir = tempfile::tempdir().unwrap();
    let target = dir.path().to_str().unwrap().to_string();
    let archive = sample_archive();
    let tag = b"v1.0".to_vec();
    let record = Some(b"v0.9".to_vec());

    let (sender, _receiver) = std::sync::mpsc::channel();
    let outcome = run_worker(&archive, &target, &record, &tag, false, false, &sender);
    assert!(matches!(outcome, WorkerOutcome::Extracted { .. }));
    assert!(dir.path().join("python/marker.txt").exists());
}

#[test]
fn developer_build_and_force_flag_extract_despite_matching_record() {
    let dir = tempfile::tempdir().unwrap();
    let target = dir.path().to_str().unwrap().to_string();
    let archive = sample_archive();
    let tag = b"v1.0".to_vec();
    let record = Some(b"v1.0".to_vec());

    let (sender, _receiver) = std::sync::mpsc::channel();
    let outcome = run_worker(&archive, &target, &record, &tag, true, false, &sender);
    assert!(matches!(outcome, WorkerOutcome::Extracted { .. }));

    let dir2 = tempfile::tempdir().unwrap();
    let target2 = dir2.path().to_str().unwrap().to_string();
    let outcome2 = run_worker(&archive, &target2, &record, &tag, false, true, &sender);
    assert!(matches!(outcome2, WorkerOutcome::Extracted { .. }));
}
