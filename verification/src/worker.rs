//! The extraction worker: one full attempt, run on a dedicated thread.
//!
//! The worker first decides whether extraction is required at all: it is,
//! exactly when the build is a developer build, or the caller forces it, or
//! the extraction record is missing or carries a tag that differs (after
//! trimming whitespace) from the current build tag.  When not required, the
//! worker reports 100 percent and completion straight away and touches
//! nothing on disk.  When required, it streams the embedded archive through
//! the decompressor into the unpacker, reporting progress as the compressed
//! bytes are read; on success it persists the extraction record with the
//! current build tag, and on failure it reports a remediation-oriented error
//! and leaves the record untouched, so that the next attempt retries.

use vstd::prelude::*;
use std::sync::mpsc::Sender;
use crate::extractor::{send_worker_message, WorkerMessage};
use crate::progress::ProgressCounter;

verus! {

/// ASCII whitespace, as trimmed off the extraction record's tag.
pub open spec fn is_ascii_whitespace(b: u8) -> bool {
    b == 32 || b == 9 || b == 10 || b == 13
}

fn byte_is_whitespace(b: u8) -> (white: bool)
    ensures
        white == is_ascii_whitespace(b),
{
    b == 32 || b == 9 || b == 10 || b == 13
}

/// `s` with its leading ASCII whitespace removed.
pub open spec fn trim_front(s: Seq<u8>) -> Seq<u8>
    decreases s.len(),
{
    if s.len() > 0 && is_ascii_whitespace(s[0]) {
        trim_front(s.drop_first())
    } else {
        s
    }
}

/// `s` with its trailing ASCII whitespace removed.
pub open spec fn trim_back(s: Seq<u8>) -> Seq<u8>
    decreases s.len(),
{
    if s.len() > 0 && is_ascii_whitespace(s.last()) {
        trim_back(s.drop_last())
    } else {
        s
    }
}

/// `s` with surrounding ASCII whitespace removed.
pub open spec fn trimmed(s: Seq<u8>) -> Seq<u8> {
    trim_back(trim_front(s))
}

proof fn lemma_trim_front_at(s: Seq<u8>, i: int)
    requires
        0 <= i <= s.len(),
        forall|k: int| 0 <= k < i ==> is_ascii_whitespace(s[k]),
        i < s.len() ==> !is_ascii_whitespace(s[i]),
    ensures
        trim_front(s) == s.subrange(i, s.len() as int),
    decreases i,
{
    if i == 0 {
        assert(trim_front(s) =~= s.subrange(0, s.len() as int));
    } else {
        let t = s.drop_first();
        assert(forall|k: int| 0 <= k < i - 1 ==> is_ascii_whitespace(#[trigger] t[k]));
        lemma_trim_front_at(t, i - 1);
        assert(t.subrange(i - 1, t.len() as int) =~= s.subrange(i, s.len() as int));
    }
}

proof fn lemma_trim_back_at(s: Seq<u8>, j: int)
    requires
        0 <= j <= s.len(),
        forall|k: int| j <= k < s.len() ==> is_ascii_whitespace(s[k]),
        j > 0 ==> !is_ascii_whitespace(s[j - 1]),
    ensures
        trim_back(s) == s.subrange(0, j),
    decreases s.len(),
{
    if j == s.len() {
        assert(trim_back(s) =~= s.subrange(0, j));
    } else {
        let t = s.drop_last();
        assert(forall|k: int| j <= k < t.len() ==> is_ascii_whitespace(#[trigger] t[k]));
        lemma_trim_back_at(t, j);
        assert(t.subrange(0, j) =~= s.subrange(0, j));
    }
}

/// The record's tag, with surrounding whitespace removed.
pub fn trim_ascii_whitespace(v: &Vec<u8>) -> (trimmed_bytes: Vec<u8>)
    ensures
        trimmed_bytes@ == trimmed(v@),
{
    let n = v.len();
    let mut start: usize = 0;
    while start < n && byte_is_whitespace(v[start])
        invariant
            start <= n,
            n == v@.len(),
            forall|k: int| 0 <= k < start ==> is_ascii_whitespace(v@[k]),
        decreases n - start,
    {
        start = start + 1;
    }
    let mut end: usize = n;
    while end > start && byte_is_whitespace(v[end - 1])
        invariant
            start <= end <= n,
            n == v@.len(),
            forall|k: int| end <= k < n ==> is_ascii_whitespace(v@[k]),
        decreases end,
    {
        end = end - 1;
    }
    let mut result: Vec<u8> = Vec::new();
    let mut i: usize = start;
    while i < end
        invariant
            start <= i <= end <= n,
            n == v@.len(),
            result@.len() == i - start,
            forall|k: int| 0 <= k < result@.len() ==> result@[k] == v@[start + k],
        decreases end - i,
    {
        result.push(v[i]);
        i = i + 1;
    }
    proof {
        lemma_trim_front_at(v@, start as int);
        let t = v@.subrange(start as int, n as int);
        lemma_trim_back_at(t, end - start);
        assert(result@ =~= t.subrange(0, end - start));
    }
    result
}

/// The record makes re-extraction unnecessary: it is present and its tag,
/// after trimming, is exactly the current build tag.
pub open spec fn record_matches(record: Option<Seq<u8>>, tag: Seq<u8>) -> bool {
    record matches Some(r) && trimmed(r) == trimmed(tag)
}

/// When extraction must run: on a developer build, when forced, or when the
/// record is missing or mismatched.
pub open spec fn extraction_required_spec(
    record: Option<Seq<u8>>,
    tag: Seq<u8>,
    developer_build: bool,
    force: bool,
) -> bool {
    developer_build || force || !record_matches(record, tag)
}

/// A record whose tag equals the current build tag after trimming makes
/// re-extraction unnecessary, unless a developer build or the force flag
/// demands it anyway.
pub proof fn lemma_matching_record_skips_extraction(record: Seq<u8>, tag: Seq<u8>)
    requires
        trimmed(record) == trimmed(tag),
    ensures
        !extraction_required_spec(Some(record), tag, false, false),
{
}

fn bytes_equal(a: &Vec<u8>, b: &Vec<u8>) -> (equal: bool)
    ensures
        equal == (a@ == b@),
{
    if a.len() != b.len() {
        return false;
    }
    let n = a.len();
    let mut i: usize = 0;
    while i < n
        invariant
            i <= n,
            n == a@.len() == b@.len(),
            forall|k: int| 0 <= k < i ==> a@[k] == b@[k],
        decreases n - i,
    {
        if a[i] != b[i] {
            return false;
        }
        i = i + 1;
    }
    proof {
        assert(a@ =~= b@);
    }
    true
}

fn copy_bytes(v: &Vec<u8>) -> (copy: Vec<u8>)
    ensures
        copy@ == v@,
{
    let n = v.len();
    let mut copy: Vec<u8> = Vec::new();
    let mut i: usize = 0;
    while i < n
        invariant
            i <= n,
            n == v@.len(),
            copy@.len() == i,
            forall|k: int| 0 <= k < i ==> copy@[k] == v@[k],
        decreases n - i,
    {
        copy.push(v[i]);
        i = i + 1;
    }
    proof {
        assert(copy@ =~= v@);
    }
    copy
}

/// The extraction decision of one attempt.
pub fn extraction_required(
    record: &Option<Vec<u8>>,
    current_tag: &Vec<u8>,
    developer_build: bool,
    force: bool,
) -> (required: bool)
    ensures
        required == extraction_required_spec(
            record.deep_view(),
            current_tag@,
            developer_build,
            force,
        ),
{
    proof {
        if record is Some {
            assert(record.deep_view() matches Some(r) && r =~= record->0@);
        }
    }
    if developer_build || force {
        return true;
    }
    match record {
        Some(r) => {
            let trimmed_record = trim_ascii_whitespace(r);
            let trimmed_tag = trim_ascii_whitespace(current_tag);
            !bytes_equal(&trimmed_record, &trimmed_tag)
        },
        None => true,
    }
}

/// What the failure report tells the user: remediation first, then where the
/// extraction was headed.
pub open spec fn failure_message_spec(target_dir: Seq<char>) -> Seq<char> {
    "Can't extract files. Make sure all installers are closed, you have enough disk space, and try again.\nAlso check permissions to write to the folder (try moving installer to a different folder)\n["@
        + target_dir
        + "]\nYou can also try 'Run as Administrator', but the installer may not work correctly."@
}

fn failure_message(target_dir: &String) -> (message: String)
    ensures
        message@ == failure_message_spec(target_dir@),
{
    let mut message = String::from_str(
        "Can't extract files. Make sure all installers are closed, you have enough disk space, and try again.\nAlso check permissions to write to the folder (try moving installer to a different folder)\n[",
    );
    message.append(target_dir.as_str());
    message.append(
        "]\nYou can also try 'Run as Administrator', but the installer may not work correctly.",
    );
    proof {
        assert(message@ =~= failure_message_spec(target_dir@));
    }
    message
}

/// Name of the extraction record file inside the target directory.
pub fn extraction_record_file_name() -> (name: String)
    ensures
        name@ == "installer_loader_extraction_lock.txt"@,
{
    String::from_str("installer_loader_extraction_lock.txt")
}

/// Terminal bookkeeping of one attempt.
pub struct ExtractionConclusion {
    /// The terminal report for the status channel.
    pub message: WorkerMessage,
    /// The record contents to persist, if any.
    pub record: Option<Vec<u8>>,
}

/// On success, the record to persist carries exactly the current build tag
/// and the terminal report is `Finished`; on failure nothing is persisted —
/// so the next attempt retries — and the terminal report carries the
/// remediation message.
pub fn conclude_extraction(unpack_ok: bool, target_dir: &String, current_tag: &Vec<u8>) -> (c:
    ExtractionConclusion)
    ensures
        unpack_ok ==> c.message is Finished && (c.record matches Some(r) && r@ == current_tag@),
        !unpack_ok ==> (c.message matches WorkerMessage::Error(m) && m@ == failure_message_spec(
            target_dir@,
        )) && c.record is None,
{
    if unpack_ok {
        ExtractionConclusion {
            message: WorkerMessage::Finished,
            record: Some(copy_bytes(current_tag)),
        }
    } else {
        ExtractionConclusion {
            message: WorkerMessage::Error(failure_message(target_dir)),
            record: None,
        }
    }
}

/// Callback target for the progress-reporting reader: accumulate one read
/// and forward the new percentage figure when one is due.  A zero-length
/// read, or one that would run past the known stream length, changes
/// nothing rather than miscounting.
fn report_progress(counter: &mut ProgressCounter, sender: &Sender<WorkerMessage>, read: usize)
    ensures
        old(counter).wf() && 1 <= read && old(counter).bytes_so_far + read <= old(
            counter,
        ).data_length ==> final(counter).wf() && final(counter).bytes_so_far == old(
            counter,
        ).bytes_so_far + read,
        !(old(counter).wf() && 1 <= read && old(counter).bytes_so_far + read <= old(
            counter,
        ).data_length) ==> *final(counter) == *old(counter),
{
    if read == 0 {
        return ;
    }
    if !counter.is_wf() {
        return ;
    }
    if read > counter.data_length - counter.bytes_so_far {
        return ;
    }
    match counter.update(read) {
        Some(percentage) => {
            let _ = send_worker_message(sender, WorkerMessage::InProgress(percentage));
        },
        None => {},
    }
}

/// Relies on `xz2::read::XzDecoder` and `tar::Archive::unpack`: streams the
/// compressed payload through the decompressor and writes the unpacked
/// entries under `target_dir`; and on `progress_streams::ProgressReader`,
/// which hands each chunk's size to the callback as the compressed bytes
/// are read.  Whether unpacking succeeds depends on the archive bytes and
/// on the state of the disk, so nothing further is promised of either
/// outcome.
#[verifier::external_body]
fn unpack_archive_with_progress(
    archive: &Vec<u8>,
    target_dir: &String,
    counter: &mut ProgressCounter,
    sender: &Sender<WorkerMessage>,
) -> (unpack_ok: bool) {
    let reader = progress_streams::ProgressReader::new(
        archive.as_slice(),
        |read: usize| report_progress(counter, sender, read),
    );
    let decoder = xz2::read::XzDecoder::new(reader);
    tar::Archive::new(decoder).unpack(target_dir.as_str()).is_ok()
}

/// Relies on `tempfile::NamedTempFile::new_in` and `NamedTempFile::persist`:
/// the contents are written to a temporary file in the target directory,
/// which is then renamed to the record's final name, so the record appears
/// under its fixed name only complete, never half-written.
#[verifier::external_body]
fn persist_record_file(target_dir: &String, file_name: &String, contents: &Vec<u8>) -> (written:
    bool) {
    let mut file = match tempfile::NamedTempFile::new_in(target_dir.as_str()) {
        Ok(file) => file,
        Err(_) => return false,
    };
    if std::io::Write::write_all(&mut file, contents.as_slice()).is_err() {
        return false;
    }
    file.persist(std::path::Path::new(target_dir.as_str()).join(file_name.as_str())).is_ok()
}

/// The outcome of one worker run.
pub enum WorkerOutcome {
    /// The record matched: nothing on disk was touched and completion was
    /// reported straight away.
    SkippedExtraction,
    /// The archive was unpacked; `record_written` tells whether persisting
    /// the record succeeded (a failure there is tolerated — the next run
    /// merely re-extracts).
    Extracted { record_written: bool },
    /// Unpacking failed; the record was left untouched.
    ExtractionFailed,
}

/// One full extraction attempt, run on the worker thread.
pub fn run_worker(
    archive: &Vec<u8>,
    target_dir: &String,
    existing_record: &Option<Vec<u8>>,
    current_tag: &Vec<u8>,
    developer_build: bool,
    force: bool,
    sender: &Sender<WorkerMessage>,
) -> (outcome: WorkerOutcome)
    requires
        1 <= archive@.len(),
        archive@.len() <= usize::MAX / 100,
    ensures
        (outcome is SkippedExtraction) == !extraction_required_spec(
            existing_record.deep_view(),
            current_tag@,
            developer_build,
            force,
        ),
{
    if !extraction_required(existing_record, current_tag, developer_build, force) {
        let _ = send_worker_message(sender, WorkerMessage::InProgress(100));
        let _ = send_worker_message(sender, WorkerMessage::Finished);
        return WorkerOutcome::SkippedExtraction;
    }
    let mut counter = ProgressCounter::new(archive.len(), 1000000);
    let unpack_ok = unpack_archive_with_progress(archive, target_dir, &mut counter, sender);
    let ExtractionConclusion { message, record } = conclude_extraction(
        unpack_ok,
        target_dir,
        current_tag,
    );
    let mut record_written = false;
    if let Some(record_contents) = &record {
        let name = extraction_record_file_name();
        record_written = persist_record_file(target_dir, &name, record_contents);
    }
    let _ = send_worker_message(sender, message);
    if unpack_ok {
        WorkerOutcome::Extracted { record_written }
    } else {
        WorkerOutcome::ExtractionFailed
    }
}

} // verus!
