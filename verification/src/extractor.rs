//! Background archive extraction with non-blocking status polling.
//!
//! An `ArchiveExtractor` owns the receiving end of a single-producer,
//! single-consumer channel.  `start_extraction` hands out the sending end
//! exactly once; the hosting shell gives it to a dedicated worker thread that
//! runs the extraction (see `worker`) and reports through it.  The polling
//! side never blocks: `poll_status` returns immediately with the most recent
//! report, or with `Started(None)` when nothing new has arrived.  A channel
//! that closes without a terminal report is an internal fault, reported
//! distinctly from an extraction failure.

use vstd::prelude::*;
use std::sync::mpsc::{Receiver, Sender, TryRecvError};

verus! {

#[verifier::external_type_specification]
#[verifier::external_body]
#[verifier::reject_recursive_types(T)]
pub struct ExReceiver<T>(Receiver<T>);

#[verifier::external_type_specification]
#[verifier::external_body]
#[verifier::reject_recursive_types(T)]
pub struct ExSender<T>(Sender<T>);

/// One report sent by the extraction worker.
pub enum WorkerMessage {
    /// Percentage of the compressed payload read so far.
    InProgress(usize),
    /// Extraction is complete (or was not needed).
    Finished,
    /// Extraction failed; the message tells the user what to try.
    Error(String),
}

/// What one non-blocking look at the worker channel produced.
pub enum ChannelEvent {
    /// A report was waiting.
    Message(WorkerMessage),
    /// Nothing has arrived since the last look.
    Pending,
    /// The worker is gone and everything it sent has been consumed.
    Disconnected,
}

/// Relies on `std::sync::mpsc::channel`: returns a connected sender/receiver
/// pair for the worker's reports.
#[verifier::external_body]
fn worker_channel() -> (Sender<WorkerMessage>, Receiver<WorkerMessage>) {
    std::sync::mpsc::channel()
}

/// Relies on `std::sync::mpsc::Receiver::try_recv`: returns immediately,
/// with a queued message, or `Empty` when none has arrived yet, or
/// `Disconnected` when all senders are gone and the queue is drained.
#[verifier::external_body]
fn channel_try_recv(receiver: &Receiver<WorkerMessage>) -> (event: ChannelEvent) {
    match receiver.try_recv() {
        Ok(message) => ChannelEvent::Message(message),
        Err(TryRecvError::Empty) => ChannelEvent::Pending,
        Err(TryRecvError::Disconnected) => ChannelEvent::Disconnected,
    }
}

/// Relies on `std::sync::mpsc::Sender::send`: delivers the message unless
/// the receiving end is gone; never blocks.
#[verifier::external_body]
pub(crate) fn send_worker_message(sender: &Sender<WorkerMessage>, message: WorkerMessage) -> (delivered:
    bool) {
    sender.send(message).is_ok()
}

/// The status the poller sees.
pub enum ExtractionStatus {
    /// No worker has been started yet.
    NotStarted,
    /// The worker is running; carries the latest percentage when a new
    /// report arrived, and nothing when no news came since the last poll.
    Started(Option<usize>),
    /// The worker reported completion on an earlier poll.
    Finished,
    /// Extraction failed, or the worker vanished without a terminal report.
    Error(String),
}

/// The phase an extractor is in, as the contracts see it.
pub enum ExtractorPhase {
    NotStarted,
    Started,
    Finished,
}

enum ExtractionStateMachine {
    NotStarted,
    Started(Receiver<WorkerMessage>),
    Finished,
}

/// Owns the polling side of one extraction attempt.
pub struct ArchiveExtractor {
    state: ExtractionStateMachine,
}

impl View for ArchiveExtractor {
    type V = ExtractorPhase;

    closed spec fn view(&self) -> ExtractorPhase {
        match self.state {
            ExtractionStateMachine::NotStarted => ExtractorPhase::NotStarted,
            ExtractionStateMachine::Started(_) => ExtractorPhase::Started,
            ExtractionStateMachine::Finished => ExtractorPhase::Finished,
        }
    }
}

/// What `start_extraction` may do: from `NotStarted` it hands out a worker
/// channel and moves to `Started`; in any other phase it changes nothing and
/// hands out nothing.
pub open spec fn start_transition(pre: ExtractorPhase, post: ExtractorPhase, started: bool) -> bool {
    if pre is NotStarted {
        post is Started && started
    } else {
        post == pre && !started
    }
}

/// What one `poll_status` call may do.  Before the worker is started the
/// answer is always `NotStarted` and nothing changes; after the terminal
/// report was consumed the answer is always `Finished`; in between, the
/// answer reflects whatever the worker sent, the phase advances to
/// `Finished` exactly when the terminal report (surfaced as 100 percent)
/// arrives, and a vanished worker surfaces as an error while the phase
/// stays `Started`.
pub open spec fn poll_transition(
    pre: ExtractorPhase,
    post: ExtractorPhase,
    status: ExtractionStatus,
) -> bool {
    match pre {
        ExtractorPhase::NotStarted => post is NotStarted && status is NotStarted,
        ExtractorPhase::Finished => post is Finished && status is Finished,
        ExtractorPhase::Started => match status {
            ExtractionStatus::NotStarted => false,
            ExtractionStatus::Finished => false,
            ExtractionStatus::Started(report) => {
                ||| post is Started
                ||| (post is Finished && report == Some(100usize))
            },
            ExtractionStatus::Error(_) => post is Started,
        },
    }
}

/// How one channel event is interpreted by the poller: the status handed to
/// the caller, and whether the extractor advances to its `Finished` phase.
pub fn interpret_channel_event(event: ChannelEvent) -> (r: (ExtractionStatus, bool))
    ensures
        event matches ChannelEvent::Message(WorkerMessage::InProgress(p)) ==> r == (
        ExtractionStatus::Started(Some(p)),
        false,
        ),
        event matches ChannelEvent::Message(WorkerMessage::Finished) ==> r == (
        ExtractionStatus::Started(Some(100usize)),
        true,
        ),
        event matches ChannelEvent::Message(WorkerMessage::Error(m)) ==> r == (
        ExtractionStatus::Error(m),
        false,
        ),
        event is Pending ==> r == (ExtractionStatus::Started(None::<usize>), false),
        event is Disconnected ==> (!r.1 && (r.0 matches ExtractionStatus::Error(m) && m@
            == "ArchiveExtractor channel disconnected unexpectedly"@)),
{
    match event {
        ChannelEvent::Message(WorkerMessage::InProgress(p)) => (
            ExtractionStatus::Started(Some(p)),
            false,
        ),
        ChannelEvent::Message(WorkerMessage::Finished) => (
            ExtractionStatus::Started(Some(100)),
            true,
        ),
        ChannelEvent::Message(WorkerMessage::Error(m)) => (ExtractionStatus::Error(m), false),
        ChannelEvent::Pending => (ExtractionStatus::Started(None), false),
        ChannelEvent::Disconnected => (
            ExtractionStatus::Error(
                String::from_str("ArchiveExtractor channel disconnected unexpectedly"),
            ),
            false,
        ),
    }
}

impl ArchiveExtractor {
    pub fn new() -> (extractor: ArchiveExtractor)
        ensures
            extractor@ is NotStarted,
    {
        ArchiveExtractor { state: ExtractionStateMachine::NotStarted }
    }

    /// Start the (at most one) extraction attempt.  The first call hands out
    /// the sending end of the worker channel, for the hosting shell to give
    /// to the worker thread it spawns; every later call changes nothing and
    /// hands out nothing, so no second worker can ever be started.
    pub fn start_extraction(&mut self) -> (handoff: Option<Sender<WorkerMessage>>)
        ensures
            start_transition(old(self)@, final(self)@, handoff is Some),
            old(self)@ is NotStarted ==> final(self)@ is Started && handoff is Some,
            !(old(self)@ is NotStarted) ==> final(self)@ == old(self)@ && handoff is None,
    {
        match &self.state {
            ExtractionStateMachine::NotStarted => {
                let (sender, receiver) = worker_channel();
                self.state = ExtractionStateMachine::Started(receiver);
                Some(sender)
            },
            _ => None,
        }
    }

    /// Non-blocking status poll.  Never waits for the worker: when no new
    /// report has arrived the answer is `Started(None)`, which is an
    /// expected condition, not an error.
    pub fn poll_status(&mut self) -> (status: ExtractionStatus)
        ensures
            poll_transition(old(self)@, final(self)@, status),
    {
        match &self.state {
            ExtractionStateMachine::NotStarted => ExtractionStatus::NotStarted,
            ExtractionStateMachine::Started(receiver) => {
                let event = channel_try_recv(receiver);
                let (status, advance) = interpret_channel_event(event);
                if advance {
                    self.state = ExtractionStateMachine::Finished;
                }
                status
            },
            ExtractionStateMachine::Finished => ExtractionStatus::Finished,
        }
    }
}

/// Any run of polls on an extractor whose extraction was never started
/// answers `NotStarted` every time and leaves the extractor unstarted:
/// `phases` is the run of phases the extractor passes through and
/// `statuses` the answers handed out along it.
pub proof fn lemma_polls_before_start_all_not_started(
    phases: Seq<ExtractorPhase>,
    statuses: Seq<ExtractionStatus>,
)
    requires
        phases.len() == statuses.len() + 1,
        phases[0] is NotStarted,
        forall|i: int|
            0 <= i < statuses.len() ==> poll_transition(phases[i], phases[i + 1], statuses[i]),
    ensures
        forall|i: int| 0 <= i < phases.len() ==> phases[i] is NotStarted,
        forall|i: int| 0 <= i < statuses.len() ==> statuses[i] is NotStarted,
    decreases statuses.len(),
{
    if statuses.len() > 0 {
        let n = statuses.len() as int;
        assert(forall|i: int| 0 <= i < n ==> #[trigger] phases.drop_last()[i] == phases[i]);
        assert(forall|i: int| 0 <= i < n - 1 ==> #[trigger] statuses.drop_last()[i] == statuses[i]);
        lemma_polls_before_start_all_not_started(phases.drop_last(), statuses.drop_last());
        assert(phases.drop_last()[n - 1] is NotStarted);
        assert(poll_transition(phases[n - 1], phases[n], statuses[n - 1]));
        assert forall|i: int| 0 <= i < phases.len() implies phases[i] is NotStarted by {
            if i < n {
                assert(phases.drop_last()[i] is NotStarted);
            }
        }
        assert forall|i: int| 0 <= i < statuses.len() implies statuses[i] is NotStarted by {
            if i < n - 1 {
                assert(statuses.drop_last()[i] is NotStarted);
            }
        }
    }
}

/// Once an extractor has consumed the terminal report it stays finished:
/// every later phase of the run is `Finished` and every later poll answers
/// `Finished`.
pub proof fn lemma_finished_phase_persists(
    phases: Seq<ExtractorPhase>,
    statuses: Seq<ExtractionStatus>,
    start: int,
)
    requires
        phases.len() == statuses.len() + 1,
        0 <= start < phases.len(),
        phases[start] is Finished,
        forall|i: int|
            0 <= i < statuses.len() ==> poll_transition(phases[i], phases[i + 1], statuses[i]),
    ensures
        forall|k: int| start <= k < phases.len() ==> phases[k] is Finished,
        forall|k: int| start <= k < statuses.len() ==> statuses[k] is Finished,
    decreases phases.len() - start,
{
    if start + 1 < phases.len() {
        assert(poll_transition(phases[start], phases[start + 1], statuses[start]));
        lemma_finished_phase_persists(phases, statuses, start + 1);
    }
}

/// No duplicate terminal notification is observable: a run of polls crosses
/// from `Started` to `Finished` — the poll that surfaces the terminal
/// report as 100 percent — at most once.
pub proof fn lemma_terminal_report_is_unique(
    phases: Seq<ExtractorPhase>,
    statuses: Seq<ExtractionStatus>,
    first: int,
    second: int,
)
    requires
        phases.len() == statuses.len() + 1,
        forall|i: int|
            0 <= i < statuses.len() ==> poll_transition(phases[i], phases[i + 1], statuses[i]),
        0 <= first < second < statuses.len(),
        phases[first] is Started && phases[first + 1] is Finished,
    ensures
        !(phases[second] is Started && phases[second + 1] is Finished),
{
    lemma_finished_phase_persists(phases, statuses, first + 1);
}

/// Starting extraction twice starts at most one worker: whatever phase the
/// extractor begins in, at most one of two successive `start_extraction`
/// calls can hand out a worker channel, and the second call never does so
/// when the first did.
pub proof fn lemma_start_extraction_idempotent(
    p0: ExtractorPhase,
    p1: ExtractorPhase,
    p2: ExtractorPhase,
    started_first: bool,
    started_second: bool,
)
    requires
        start_transition(p0, p1, started_first),
        start_transition(p1, p2, started_second),
    ensures
        !(started_first && started_second),
        started_first ==> !started_second,
{
}

} // verus!
