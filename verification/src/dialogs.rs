//! Dialog and console decision logic.
//!
//! The native message boxes and the file-open dialog themselves are platform
//! work done by the hosting shell; this module fixes what they are asked and
//! what their answers mean: the filter pairs handed to the open dialog, the
//! command-line contract of the `open` sub-command, the choice put to the
//! user when the single-instance lock is contended, and the validation of
//! console menu input.

use vstd::prelude::*;

verus! {

/// Marker for a file dialog the user closed without choosing anything.
#[derive(Debug, Clone)]
pub struct UserCancelled;

/// The icon shown on a native message box.
#[derive(Debug, Clone, Copy)]
pub enum IconType {
    Error,
    Info,
    NoIcon,
}

/// The button the user pressed on a native message box.
#[derive(Debug, Clone, Copy)]
pub enum MessageBoxResult {
    Abort,
    Cancel,
    Continue,
    Ignore,
    No,
    Okay,
    Retry,
    TryAgain,
    Yes,
    Unknown,
}

/// The button set offered on a native message box.
#[derive(Debug, Clone, Copy)]
pub enum MessageBoxButtons {
    AbortRetryIgnore,
    CancelTryContinue,
    OK,
    OKCancel,
    RetryCancel,
    YesNo,
    YesNoCancel,
}

/// What the launcher does when the single-instance lock is contended.
pub enum LockContentionDecision {
    /// Run anyway, without the lock.
    Proceed,
    /// Stop; another instance keeps running.
    Exit,
    /// The user's answer was lost or unknown: show the failure details,
    /// wait for acknowledgement, then run without the lock.
    PauseThenProceed,
}

/// Lock contention is not fatal by itself — a stale lock file can survive a
/// crash — so the user chooses: continue without the lock, or abort.  An
/// unknown answer falls back to a pause for acknowledgement before
/// continuing.
pub fn resolve_lock_contention(user_choice: MessageBoxResult) -> (decision: LockContentionDecision)
    ensures
        user_choice is Yes ==> decision is Proceed,
        user_choice is No ==> decision is Exit,
        !(user_choice is Yes) && !(user_choice is No) ==> decision is PauseThenProceed,
{
    match user_choice {
        MessageBoxResult::Yes => LockContentionDecision::Proceed,
        MessageBoxResult::No => LockContentionDecision::Exit,
        _ => LockContentionDecision::PauseThenProceed,
    }
}

/// The filter pairs handed to the file-open dialog: the arguments pair up
/// as description, pattern, description, pattern, ... with a trailing odd
/// argument dropped; with no arguments at all, a single all-files filter
/// keeps the dialog's file-type dropdown visible.
pub open spec fn spec_open_filters(args: Seq<Seq<char>>) -> Seq<(Seq<char>, Seq<char>)> {
    if args.len() == 0 {
        seq![("All Files"@, "*.*"@)]
    } else {
        Seq::new(args.len() / 2, |i: int| (args[2 * i], args[2 * i + 1]))
    }
}

/// Pair up the `open` sub-command's description/pattern arguments.
pub fn parse_open_filters(args: &Vec<String>) -> (filters: Vec<(String, String)>)
    ensures
        filters.deep_view() == spec_open_filters(args.deep_view()),
{
    let mut filters: Vec<(String, String)> = Vec::new();
    if args.len() == 0 {
        filters.push((String::from_str("All Files"), String::from_str("*.*")));
        proof {
            assert(filters.deep_view() =~= spec_open_filters(args.deep_view()));
        }
        return filters;
    }
    let n = args.len();
    let pair_count = n / 2;
    proof {
        assert(2 * (args@.len() / 2) <= args@.len()) by (nonlinear_arith);
    }
    let mut i: usize = 0;
    while i < pair_count
        invariant
            i <= pair_count,
            n == args@.len(),
            pair_count == args@.len() / 2,
            2 * pair_count <= n,
            filters@.len() == i,
            forall|k: int|
                0 <= k < i ==> (#[trigger] filters@[k]).0@ == args@[2 * k]@ && filters@[k].1@
                    == args@[2 * k + 1]@,
        decreases pair_count - i,
    {
        let description = args[2 * i].clone();
        let pattern = args[2 * i + 1].clone();
        filters.push((description, pattern));
        proof {
            assert((filters@[i as int]).0@ == args@[2 * (i as int)]@);
            assert((filters@[i as int]).1@ == args@[2 * (i as int) + 1]@);
        }
        i = i + 1;
    }
    proof {
        assert(filters.deep_view() =~= spec_open_filters(args.deep_view()));
    }
    filters
}

/// What the `open` sub-command leaves behind.
pub struct OpenCommandResponse {
    /// The chosen path, written to standard output.
    pub output: Option<String>,
    /// The failure, written as an error message.
    pub error: Option<String>,
    /// The process exit code.
    pub exit_code: u8,
}

/// What the file dialog came back with.
pub enum DialogOutcome {
    /// The user chose a path.
    Chosen(String),
    /// The user cancelled the dialog.
    Cancelled,
    /// The dialog itself failed.
    Failed(String),
}

/// The command-line contract of the `open` sub-command: a chosen path goes
/// to standard output with exit code 0; a cancelled dialog writes nothing
/// and still exits 0; any other dialog failure writes an error message and
/// exits non-zero.
pub fn open_command_response(outcome: DialogOutcome) -> (response: OpenCommandResponse)
    ensures
        outcome matches DialogOutcome::Chosen(path) ==> (response.output matches Some(written)
            && written@ == path@) && response.error is None && response.exit_code == 0,
        outcome is Cancelled ==> response.output is None && response.error is None
            && response.exit_code == 0,
        outcome matches DialogOutcome::Failed(message) ==> response.output is None && (
        response.error matches Some(written) && written@ == message@) && response.exit_code == 1,
{
    match outcome {
        DialogOutcome::Chosen(path) => OpenCommandResponse {
            output: Some(path),
            error: None,
            exit_code: 0,
        },
        DialogOutcome::Cancelled => OpenCommandResponse {
            output: None,
            error: None,
            exit_code: 0,
        },
        DialogOutcome::Failed(message) => OpenCommandResponse {
            output: None,
            error: Some(message),
            exit_code: 1,
        },
    }
}

/// Whether a console answer is one of the menu's valid choices.
pub fn is_valid_choice(input: &Option<String>, choices: &Vec<String>) -> (valid: bool)
    ensures
        valid == (input matches Some(line) && (exists|i: int|
            0 <= i < choices@.len() && (#[trigger] choices@[i])@ == line@)),
{
    if input.is_none() {
        return false;
    }
    let line = input.as_ref().unwrap();
    let n = choices.len();
    let mut i: usize = 0;
    while i < n
        invariant
            i <= n,
            n == choices@.len(),
            input matches Some(l) && l == *line,
            forall|k: int| 0 <= k < i ==> (#[trigger] choices@[k])@ != line@,
        decreases n - i,
    {
        if choices[i].eq(line) {
            proof {
                assert((choices@[i as int])@ == line@);
                assert(exists|j: int|
                    0 <= j < choices@.len() && (#[trigger] choices@[j])@ == line@);
            }
            return true;
        }
        i = i + 1;
    }
    false
}

} // verus!
