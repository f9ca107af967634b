//! The installer progression state machine.
//!
//! One tagged state is active at a time, and every per-frame update either
//! leaves the state alone or takes exactly one transition — after a
//! transition no further logic of the same tick acts on the old state.  The
//! machine sequences pre-extraction checks, extraction, the runtime
//! dependency check, the launch of the external installer, and the terminal
//! finished/failed states, consuming extraction status from the
//! `ArchiveExtractor` it owns and process liveness reports from the hosting
//! shell.  Everything that touches the operating system — spawning the
//! worker thread and the installer process, probing for the runtime
//! libraries, killing a process — is carried out by the hosting shell, which
//! is told what to do through the values these transitions return.

use vstd::prelude::*;
use std::sync::mpsc::Sender;
use crate::extractor::{poll_transition, ArchiveExtractor, ExtractionStatus, WorkerMessage};
use crate::launch::LaunchType;

verus! {

/// State carried while the external installer process runs.
pub struct InstallStartedState {
    /// How the installer was launched.
    pub launch_type: LaunchType,
    /// Whether the webview window has been opened (webview mode only).
    pub webview_launched: bool,
    /// How often the installer's web server has been probed for its URL.
    pub python_started_poll_count: usize,
}

impl InstallStartedState {
    pub fn new(launch_type: LaunchType) -> (s: InstallStartedState)
        ensures
            s.launch_type == launch_type,
            !s.webview_launched,
            s.python_started_poll_count == 0,
    {
        InstallStartedState { launch_type, webview_launched: false, python_started_poll_count: 0 }
    }
}

/// State carried once the installation has failed.
pub struct InstallFailedState {
    /// What went wrong, shown to the user.
    pub failure_reason: String,
    /// Whether the console window holding diagnostic output was forced
    /// visible already.
    pub console_window_displayed: bool,
}

impl InstallFailedState {
    pub fn new(failure_reason: String) -> (s: InstallFailedState)
        ensures
            s.failure_reason@ == failure_reason@,
            !s.console_window_displayed,
    {
        InstallFailedState { failure_reason, console_window_displayed: false }
    }
}

/// State carried while the payload archive is being extracted.
pub struct ExtractingPythonState {
    /// The polling side of the extraction attempt.
    pub extractor: ArchiveExtractor,
    /// Whether this attempt must extract even when the record matches.
    pub force: bool,
}

impl ExtractingPythonState {
    pub fn new(force: bool) -> (s: ExtractingPythonState)
        ensures
            s.extractor@ is NotStarted,
            s.force == force,
    {
        ExtractingPythonState { extractor: ArchiveExtractor::new(), force }
    }
}

/// The states of the installer progression.  Exactly one is active at a
/// time.
pub enum InstallerProgression {
    /// Checking the surroundings before anything touches the disk.
    PreExtractionChecks,
    /// A pre-extraction check failed; the reason is shown until the user
    /// explicitly continues.
    PreExtractionChecksFailed(String),
    /// The payload archive is being extracted in the background.
    ExtractingPython(ExtractingPythonState),
    /// The runtime support libraries are missing; the user is offered
    /// download options and may force continuation.
    UserNeedsCPPRedistributable,
    /// The external installer process is running.
    InstallStarted(InstallStartedState),
    /// Terminal: the installer finished; the hosting loop should stop.
    InstallFinished,
    /// Terminal for this run: the installation failed.
    InstallFailed(InstallFailedState),
    /// Terminal: a temporary extraction directory could not be cleaned up;
    /// carries the leftover path for the user to remove.
    TempDirCleanupFailed(String),
}

/// The per-run installer state: the progression plus what does not depend
/// on it.
pub struct InstallerState {
    /// The active progression state.
    pub progression: InstallerProgression,
    /// The most recently reported percentage, for the progress bar.
    pub progress_percentage: usize,
    /// Set when the user asked to rebuild the whole run inside a temporary
    /// directory; handled by the hosting shell, not by this machine.
    pub retry_using_temp_dir: bool,
}

/// What the hosting shell must do after one extraction tick.
pub enum ExtractionTickAction {
    /// Nothing.
    NoAction,
    /// Spawn the worker thread for this (first) extraction attempt; it
    /// reports through the sender, and the flag tells it to extract even
    /// when the record matches.
    StartWorker(Sender<WorkerMessage>, bool),
    /// Extraction is done and the runtime libraries are present: launch
    /// the installer in the given mode.
    LaunchInstaller(LaunchType),
}

/// What the hosting shell must do with the webview after one tick.
pub enum WebviewAction {
    /// Nothing yet.
    Wait,
    /// Open (or reuse) the webview window on this URL.
    Launch(String),
}

/// One process liveness report, as the hosting shell saw it.
pub enum ProcessStatus {
    /// `try_wait` reported the process still running (or could not tell).
    StillRunning,
    /// The process exited successfully.
    ExitedSuccess,
    /// The process exited with a failure.
    ExitedFailure,
}

/// The exact image of one consumed extraction status: for each status the
/// extractor can hand the tick, what the tick must do to the progression
/// and what it must hand the hosting shell.
///
/// - `NotStarted` (only possible while the extractor is unstarted): the
///   only move is the lazy start — the worker channel is handed out with
///   the attempt's force flag and the extractor is started; the
///   progression stays extracting and the percentage is untouched.
/// - `Started(report)`: no action; a fresh percentage is stored exactly
///   when one was reported, nothing else changes, and the extractor's
///   phases obey `poll_transition` for this very status.
/// - `Finished` (the terminal report was consumed on an earlier poll): the
///   probe decides — libraries present demands the webview launch and
///   enters the started state; libraries missing enters the
///   dependency-check state with no action.
/// - `Error(m)`: no action; the run enters the failed state carrying
///   exactly the worker's message, with the diagnostic console not yet
///   shown.
pub open spec fn extraction_status_step(
    pre: InstallerState,
    post: InstallerState,
    status: ExtractionStatus,
    redist_installed: bool,
    action: ExtractionTickAction,
) -> bool {
    match pre.progression {
        InstallerProgression::ExtractingPython(es) => {
            &&& post.retry_using_temp_dir == pre.retry_using_temp_dir
            &&& (match status {
                ExtractionStatus::NotStarted => {
                    &&& es.extractor@ is NotStarted
                    &&& (action matches ExtractionTickAction::StartWorker(_, force) && force
                        == es.force)
                    &&& post.progress_percentage == pre.progress_percentage
                    &&& (match post.progression {
                        InstallerProgression::ExtractingPython(es2) => es2.force == es.force
                            && es2.extractor@ is Started,
                        _ => false,
                    })
                },
                ExtractionStatus::Started(report) => {
                    &&& action is NoAction
                    &&& (match report {
                        Some(percentage) => post.progress_percentage == percentage,
                        None => post.progress_percentage == pre.progress_percentage,
                    })
                    &&& (match post.progression {
                        InstallerProgression::ExtractingPython(es2) => es2.force == es.force
                            && poll_transition(es.extractor@, es2.extractor@, status),
                        _ => false,
                    })
                },
                ExtractionStatus::Finished => {
                    &&& es.extractor@ is Finished
                    &&& post.progress_percentage == pre.progress_percentage
                    &&& if redist_installed {
                        &&& action == ExtractionTickAction::LaunchInstaller(LaunchType::WebView)
                        &&& (match post.progression {
                            InstallerProgression::InstallStarted(ss) => ss.launch_type
                                == LaunchType::WebView && !ss.webview_launched
                                && ss.python_started_poll_count == 0,
                            _ => false,
                        })
                    } else {
                        &&& action is NoAction
                        &&& post.progression is UserNeedsCPPRedistributable
                    }
                },
                ExtractionStatus::Error(message) => {
                    &&& es.extractor@ is Started
                    &&& action is NoAction
                    &&& post.progress_percentage == pre.progress_percentage
                    &&& (match post.progression {
                        InstallerProgression::InstallFailed(fs) => fs.failure_reason@ == message@
                            && !fs.console_window_displayed,
                        _ => false,
                    })
                },
            })
        },
        _ => post == pre && action is NoAction,
    }
}

/// What one webview tick may do.  It acts only while a webview-mode install
/// waits for its window: after more than a hundred fruitless probes the
/// window is opened on the default URL; otherwise, each time the probe
/// timer expires the probe count rises and the window is opened exactly
/// when the server's URL was available, with the reported percentage
/// showing either completion or how long the wait has been.
pub open spec fn webview_step(
    pre: InstallerState,
    post: InstallerState,
    timer_expired: bool,
    server_url: Option<String>,
    action: WebviewAction,
) -> bool {
    match pre.progression {
        InstallerProgression::InstallStarted(ss) => {
            if ss.launch_type != LaunchType::WebView || ss.webview_launched {
                post == pre && action is Wait
            } else if ss.python_started_poll_count > 100 {
                &&& (match post.progression {
                    InstallerProgression::InstallStarted(ss2) => ss2.launch_type == ss.launch_type
                        && ss2.webview_launched && ss2.python_started_poll_count
                        == ss.python_started_poll_count,
                    _ => false,
                })
                &&& (match action {
                    WebviewAction::Launch(url) => url@ == default_server_url_value(),
                    _ => false,
                })
                &&& post.progress_percentage == pre.progress_percentage
                &&& post.retry_using_temp_dir == pre.retry_using_temp_dir
            } else if timer_expired {
                &&& (match post.progression {
                    InstallerProgression::InstallStarted(ss2) => {
                        &&& ss2.launch_type == ss.launch_type
                        &&& ss2.python_started_poll_count == ss.python_started_poll_count + 1
                        &&& ss2.webview_launched == (server_url is Some)
                    },
                    _ => false,
                })
                &&& (match server_url {
                    Some(url) => (match action {
                        WebviewAction::Launch(launched_url) => launched_url == url,
                        _ => false,
                    }) && post.progress_percentage == 100,
                    None => action is Wait && post.progress_percentage
                        == ss.python_started_poll_count + 1,
                })
                &&& post.retry_using_temp_dir == pre.retry_using_temp_dir
            } else {
                post == pre && action is Wait
            }
        },
        _ => post == pre && action is Wait,
    }
}

impl InstallerState {
    pub fn new(initial_progression: InstallerProgression) -> (s: InstallerState)
        ensures
            s.progression == initial_progression,
            s.progress_percentage == 0,
            !s.retry_using_temp_dir,
    {
        InstallerState {
            progression: initial_progression,
            progress_percentage: 0,
            retry_using_temp_dir: false,
        }
    }

    /// The pre-extraction check: warn when the launcher runs from a
    /// transient location — a common cause of silent extraction failures —
    /// and otherwise advance straight to extraction.
    pub fn pre_extraction_check(&mut self, in_temp_folder: bool)
        ensures
            !(old(self).progression is PreExtractionChecks) ==> *final(self) == *old(self),
            old(self).progression is PreExtractionChecks && in_temp_folder ==> (final(self).progression matches InstallerProgression::PreExtractionChecksFailed(m) && m@
                == temp_folder_warning_spec()),
            old(self).progression is PreExtractionChecks && !in_temp_folder ==> (final(self).progression matches InstallerProgression::ExtractingPython(es)
                && es.extractor@ is NotStarted && !es.force),
            final(self).progress_percentage == old(self).progress_percentage,
            final(self).retry_using_temp_dir == old(self).retry_using_temp_dir,
    {
        if let InstallerProgression::PreExtractionChecks = &self.progression {
            if in_temp_folder {
                self.progression = InstallerProgression::PreExtractionChecksFailed(
                    temp_folder_warning(),
                );
            } else {
                self.progression = InstallerProgression::ExtractingPython(
                    ExtractingPythonState::new(false),
                );
            }
        }
    }

    /// The user acknowledged the failed pre-extraction check and chose to
    /// continue anyway: advance to extraction.
    pub fn acknowledge_pre_extraction_failure(&mut self)
        ensures
            !(old(self).progression is PreExtractionChecksFailed) ==> *final(self) == *old(self),
            old(self).progression is PreExtractionChecksFailed ==> (final(self).progression matches InstallerProgression::ExtractingPython(es)
                && es.extractor@ is NotStarted && !es.force),
            final(self).progress_percentage == old(self).progress_percentage,
            final(self).retry_using_temp_dir == old(self).retry_using_temp_dir,
    {
        if let InstallerProgression::PreExtractionChecksFailed(_) = &self.progression {
            self.progression = InstallerProgression::ExtractingPython(
                ExtractingPythonState::new(false),
            );
        }
    }

    /// One extraction tick: poll the extractor and advance the progression
    /// on a terminal report.  `redist_installed` is the dependency probe's
    /// answer, consulted only when extraction completes.  Never blocks.
    /// Which status the poll hands back is the channel's to decide, so the
    /// promise is: some status admitted by the extractor's polling contract
    /// was consumed, and the new state and the action are its exact image
    /// under `extraction_status_step`.
    pub fn extraction_update(&mut self, redist_installed: bool) -> (action: ExtractionTickAction)
        ensures
            !(old(self).progression is ExtractingPython) ==> *final(self) == *old(self)
                && action is NoAction,
            old(self).progression is ExtractingPython ==> (exists|status: ExtractionStatus|
                #[trigger] extraction_status_step(
                    *old(self),
                    *final(self),
                    status,
                    redist_installed,
                    action,
                )),
            final(self).retry_using_temp_dir == old(self).retry_using_temp_dir,
    {
        if let InstallerProgression::ExtractingPython(extraction_state) = &mut self.progression {
            match extraction_state.extractor.poll_status() {
                ExtractionStatus::NotStarted => {
                    let force = extraction_state.force;
                    match extraction_state.extractor.start_extraction() {
                        Some(sender) => {
                            let action = ExtractionTickAction::StartWorker(sender, force);
                            proof {
                                assert(extraction_status_step(
                                    *old(self),
                                    *self,
                                    ExtractionStatus::NotStarted,
                                    redist_installed,
                                    action,
                                ));
                            }
                            action
                        },
                        None => vstd::pervasive::unreached(),
                    }
                },
                ExtractionStatus::Started(report) => {
                    if let Some(percentage) = report {
                        self.progress_percentage = percentage;
                    }
                    proof {
                        assert(extraction_status_step(
                            *old(self),
                            *self,
                            ExtractionStatus::Started(report),
                            redist_installed,
                            ExtractionTickAction::NoAction,
                        ));
                    }
                    ExtractionTickAction::NoAction
                },
                ExtractionStatus::Finished => {
                    if redist_installed {
                        self.progression = InstallerProgression::InstallStarted(
                            InstallStartedState::new(LaunchType::WebView),
                        );
                        proof {
                            assert(extraction_status_step(
                                *old(self),
                                *self,
                                ExtractionStatus::Finished,
                                redist_installed,
                                ExtractionTickAction::LaunchInstaller(LaunchType::WebView),
                            ));
                        }
                        ExtractionTickAction::LaunchInstaller(LaunchType::WebView)
                    } else {
                        self.progression = InstallerProgression::UserNeedsCPPRedistributable;
                        proof {
                            assert(extraction_status_step(
                                *old(self),
                                *self,
                                ExtractionStatus::Finished,
                                redist_installed,
                                ExtractionTickAction::NoAction,
                            ));
                        }
                        ExtractionTickAction::NoAction
                    }
                },
                ExtractionStatus::Error(message) => {
                    let ghost reported_message = message;
                    self.progression = InstallerProgression::InstallFailed(
                        InstallFailedState::new(message),
                    );
                    proof {
                        assert(extraction_status_step(
                            *old(self),
                            *self,
                            ExtractionStatus::Error(reported_message),
                            redist_installed,
                            ExtractionTickAction::NoAction,
                        ));
                    }
                    ExtractionTickAction::NoAction
                },
            }
        } else {
            ExtractionTickAction::NoAction
        }
    }

    /// The user asked to continue past the dependency check.  The probe is
    /// consulted again; continuing is allowed when the libraries are now
    /// present, or — after explicit confirmation — even when they are
    /// still missing.
    pub fn redist_continue(&mut self, redist_installed: bool, user_override: bool) -> (launch:
        Option<LaunchType>)
        ensures
            !(old(self).progression is UserNeedsCPPRedistributable) ==> *final(self) == *old(self)
                && launch is None,
            old(self).progression is UserNeedsCPPRedistributable && (redist_installed
                || user_override) ==> launch == Some(LaunchType::WebView) && (final(self).progression matches InstallerProgression::InstallStarted(ss) && ss.launch_type
                == LaunchType::WebView && !ss.webview_launched && ss.python_started_poll_count
                == 0),
            old(self).progression is UserNeedsCPPRedistributable && !(redist_installed
                || user_override) ==> *final(self) == *old(self) && launch is None,
            final(self).progress_percentage == old(self).progress_percentage,
            final(self).retry_using_temp_dir == old(self).retry_using_temp_dir,
    {
        if let InstallerProgression::UserNeedsCPPRedistributable = &self.progression {
            if redist_installed || user_override {
                self.progression = InstallerProgression::InstallStarted(
                    InstallStartedState::new(LaunchType::WebView),
                );
                Some(LaunchType::WebView)
            } else {
                None
            }
        } else {
            None
        }
    }

    /// Drive the webview while the graphical install waits for the
    /// installer's web server.  `server_url` is the URL read from the
    /// server's info file, when it was available this tick; the timer keeps
    /// the probing to one attempt per half second.  After many fruitless
    /// probes the webview is opened on the default URL.
    pub fn webview_update(&mut self, timer_expired: bool, server_url: Option<String>) -> (action:
        WebviewAction)
        ensures
            webview_step(*old(self), *final(self), timer_expired, server_url, action),
    {
        if let InstallerProgression::InstallStarted(install_state) = &mut self.progression {
            if matches!(install_state.launch_type, LaunchType::WebView)
                && !install_state.webview_launched {
                if install_state.python_started_poll_count > 100 {
                    install_state.webview_launched = true;
                    WebviewAction::Launch(default_server_url())
                } else if timer_expired {
                    install_state.python_started_poll_count =
                        install_state.python_started_poll_count + 1;
                    match server_url {
                        Some(url) => {
                            install_state.webview_launched = true;
                            self.progress_percentage = 100;
                            WebviewAction::Launch(url)
                        },
                        None => {
                            self.progress_percentage = install_state.python_started_poll_count;
                            WebviewAction::Wait
                        },
                    }
                } else {
                    WebviewAction::Wait
                }
            } else {
                WebviewAction::Wait
            }
        } else {
            WebviewAction::Wait
        }
    }

    /// Consume one liveness report on the running installer process:
    /// successful exit finishes the run, failed exit moves to the failed
    /// state with its diagnostic hint.
    pub fn process_update(&mut self, status: ProcessStatus)
        ensures
            !(old(self).progression is InstallStarted) ==> *final(self) == *old(self),
            old(self).progression is InstallStarted && status is StillRunning ==> *final(self)
                == *old(self),
            old(self).progression is InstallStarted && status is ExitedSuccess ==> final(self).progression is InstallFinished,
            old(self).progression is InstallStarted && status is ExitedFailure ==> (final(self).progression matches InstallerProgression::InstallFailed(fs) && fs.failure_reason@
                == "Python Installer Failed - See Console Window"@ && !fs.console_window_displayed),
            final(self).progress_percentage == old(self).progress_percentage,
            final(self).retry_using_temp_dir == old(self).retry_using_temp_dir,
    {
        if let InstallerProgression::InstallStarted(_) = &self.progression {
            match status {
                ProcessStatus::StillRunning => {},
                ProcessStatus::ExitedSuccess => {
                    self.progression = InstallerProgression::InstallFinished;
                },
                ProcessStatus::ExitedFailure => {
                    self.progression = InstallerProgression::InstallFailed(
                        InstallFailedState::new(
                            String::from_str("Python Installer Failed - See Console Window"),
                        ),
                    );
                },
            }
        }
    }

    /// The user asked to restart the installer in another launch mode.
    /// The hosting shell must kill the running process — and wait for the
    /// kill to finish — exactly when this returns true, then spawn the new
    /// one.
    pub fn request_restart(&mut self, new_launch_type: LaunchType) -> (kill_first: bool)
        ensures
            kill_first == (old(self).progression is InstallStarted),
            !(old(self).progression is InstallStarted) ==> *final(self) == *old(self),
            old(self).progression is InstallStarted ==> (final(self).progression matches InstallerProgression::InstallStarted(ss) && ss.launch_type
                == new_launch_type && !ss.webview_launched && ss.python_started_poll_count == 0),
            final(self).progress_percentage == old(self).progress_percentage,
            final(self).retry_using_temp_dir == old(self).retry_using_temp_dir,
    {
        if let InstallerProgression::InstallStarted(_) = &self.progression {
            self.progression = InstallerProgression::InstallStarted(
                InstallStartedState::new(new_launch_type),
            );
            true
        } else {
            false
        }
    }

    /// The user asked to rebuild the whole run inside a temporary
    /// directory.  The request is flagged for the hosting shell; the
    /// running process must be killed exactly when this returns true.
    pub fn request_retry_using_temp_dir(&mut self) -> (kill_first: bool)
        ensures
            kill_first == (old(self).progression is InstallStarted),
            !(old(self).progression is InstallStarted) ==> *final(self) == *old(self),
            old(self).progression is InstallStarted ==> final(self).retry_using_temp_dir
                && final(self).progression == old(self).progression && final(self).progress_percentage == old(self).progress_percentage,
    {
        if let InstallerProgression::InstallStarted(_) = &self.progression {
            self.retry_using_temp_dir = true;
            true
        } else {
            false
        }
    }

    /// A launch, restart or kill failed: record the reason and move to the
    /// failed state, from wherever the progression stood.
    pub fn on_install_failed(&mut self, reason: String)
        ensures
            final(self).progression matches InstallerProgression::InstallFailed(fs)
                && fs.failure_reason@ == reason@ && !fs.console_window_displayed,
            final(self).progress_percentage == old(self).progress_percentage,
            final(self).retry_using_temp_dir == old(self).retry_using_temp_dir,
    {
        self.progression = InstallerProgression::InstallFailed(InstallFailedState::new(reason));
    }

    /// Quit the run.  The hosting shell must kill the running installer
    /// process — and wait for it — exactly when this returns true; the
    /// progression always ends in its finished state.
    pub fn quit(&mut self) -> (kill_installer: bool)
        ensures
            kill_installer == (old(self).progression is InstallStarted),
            final(self).progression is InstallFinished,
            final(self).progress_percentage == old(self).progress_percentage,
            final(self).retry_using_temp_dir == old(self).retry_using_temp_dir,
    {
        let kill_installer = matches!(self.progression, InstallerProgression::InstallStarted(_));
        self.progression = InstallerProgression::InstallFinished;
        kill_installer
    }

    /// Whether a window-close request needs explicit confirmation.  Before
    /// anything irreversible has begun the launcher just quits; once the
    /// installation has started or failed, interrupting it could leave the
    /// install half applied, so the user must confirm.
    pub fn close_needs_confirmation(&self) -> (confirm: bool)
        ensures
            confirm == (self.progression is InstallStarted || self.progression is InstallFailed),
    {
        match &self.progression {
            InstallerProgression::InstallStarted(_) => true,
            InstallerProgression::InstallFailed(_) => true,
            _ => false,
        }
    }

    /// The user asked for a fresh extraction.  Granted only from a
    /// terminal state; the new attempt extracts even when the record
    /// matches.
    pub fn force_reextraction(&mut self) -> (granted: bool)
        ensures
            granted == (old(self).progression is InstallFinished || old(self).progression is InstallFailed),
            !granted ==> *final(self) == *old(self),
            granted ==> (final(self).progression matches InstallerProgression::ExtractingPython(es)
                && es.extractor@ is NotStarted && es.force),
            final(self).progress_percentage == old(self).progress_percentage,
            final(self).retry_using_temp_dir == old(self).retry_using_temp_dir,
    {
        match &self.progression {
            InstallerProgression::InstallFinished | InstallerProgression::InstallFailed(_) => {
                self.progression = InstallerProgression::ExtractingPython(
                    ExtractingPythonState::new(true),
                );
                true
            },
            _ => false,
        }
    }

    /// One tick in the failed state: the first tick forces the console
    /// window with the diagnostic output visible, later ticks do nothing.
    pub fn failure_tick(&mut self) -> (show_console: bool)
        ensures
            !(old(self).progression is InstallFailed) ==> *final(self) == *old(self)
                && !show_console,
            old(self).progression matches InstallerProgression::InstallFailed(fs) ==> (show_console
                == !fs.console_window_displayed && (final(self).progression matches InstallerProgression::InstallFailed(fs2) && fs2.failure_reason@
                == fs.failure_reason@ && fs2.console_window_displayed)),
            final(self).progress_percentage == old(self).progress_percentage,
            final(self).retry_using_temp_dir == old(self).retry_using_temp_dir,
    {
        if let InstallerProgression::InstallFailed(failed_state) = &mut self.progression {
            if !failed_state.console_window_displayed {
                failed_state.console_window_displayed = true;
                true
            } else {
                false
            }
        } else {
            false
        }
    }

    /// The short label of the active state, shown on the progress bar.
    pub fn current_task_description(&self) -> (label: String)
        ensures
            label@ == task_label_spec(&self.progression),
    {
        match &self.progression {
            InstallerProgression::PreExtractionChecks => String::from_str("Pre-Extraction..."),
            InstallerProgression::PreExtractionChecksFailed(_) => String::from_str(
                "Pre-Extraction Failed...",
            ),
            InstallerProgression::ExtractingPython(_) => String::from_str("Extracting..."),
            InstallerProgression::UserNeedsCPPRedistributable => String::from_str("CPP Redist..."),
            InstallerProgression::InstallStarted(_) => String::from_str("Launching Python"),
            InstallerProgression::InstallFinished => String::from_str("Finished..."),
            InstallerProgression::InstallFailed(_) => String::from_str("Failed..."),
            InstallerProgression::TempDirCleanupFailed(_) => String::from_str(
                "Temp Dir Cleanup Failed...",
            ),
        }
    }
}

/// The label shown for each state.
pub open spec fn task_label_spec(progression: &InstallerProgression) -> Seq<char> {
    match progression {
        InstallerProgression::PreExtractionChecks => "Pre-Extraction..."@,
        InstallerProgression::PreExtractionChecksFailed(_) => "Pre-Extraction Failed..."@,
        InstallerProgression::ExtractingPython(_) => "Extracting..."@,
        InstallerProgression::UserNeedsCPPRedistributable => "CPP Redist..."@,
        InstallerProgression::InstallStarted(_) => "Launching Python"@,
        InstallerProgression::InstallFinished => "Finished..."@,
        InstallerProgression::InstallFailed(_) => "Failed..."@,
        InstallerProgression::TempDirCleanupFailed(_) => "Temp Dir Cleanup Failed..."@,
    }
}

/// The warning shown when the launcher runs from a temporary folder.
pub open spec fn temp_folder_warning_spec() -> Seq<char> {
    "WARNING: It appears you're running the installer from a temporary folder, which may cause the installer to fail.\nPlease download the installer to your Downloads or other known location, then run it from there."@
}

fn temp_folder_warning() -> (warning: String)
    ensures
        warning@ == temp_folder_warning_spec(),
{
    String::from_str(
        "WARNING: It appears you're running the installer from a temporary folder, which may cause the installer to fail.\nPlease download the installer to your Downloads or other known location, then run it from there.",
    )
}

/// The URL tried when the installer's web server never published its own.
pub open spec fn default_server_url_value() -> Seq<char> {
    "http://127.0.0.1:8000/loading_screen.html"@
}

/// The fallback URL for the webview.
pub fn default_server_url() -> (url: String)
    ensures
        url@ == default_server_url_value(),
{
    String::from_str("http://127.0.0.1:8000/loading_screen.html")
}

/// What the hosting loop is told at the end of a frame.
pub struct NextFrameCommands {
    /// False once the run is over: the hosting loop should stop.
    pub run: bool,
    /// Bring the window to the front next frame.
    pub force_show_window: bool,
    /// Rebuild the whole run inside a temporary directory.
    pub retry_using_tempdir: bool,
}

} // verus!
