use install_loader::extractor::WorkerMessage;
use install_loader::launch::LaunchType;
use install_loader::progression::{
    ExtractionTickAction, InstallerProgression, InstallerState, ProcessStatus, WebviewAction,
};

fn fresh_state() -> InstallerState {
    InstallerState::new(InstallerProgression::PreExtractionChecks)
}

#[test]
fn pre_check_advances_to_extraction() {
    let mut state = fresh_state();
    state.pre_extraction_check(false);
    assert!(matches!(state.progression, InstallerProgression::ExtractingPython(_)));
}

#[test]
fn pre_check_in_temp_folder_warns_until_acknowledged() {
    let mut state = fresh_state();
    state.pre_extraction_check(true);
    match &state.progression {
        InstallerProgression::PreExtractionChecksFailed(reason) => {
            assert!(reason.contains("temporary folder"));
        }
        _ => panic!("expected the failed pre-check state"),
    }
    state.acknowledge_pre_extraction_failure();
    assert!(matches!(state.progression, InstallerProgression::ExtractingPython(_)));
}

#[test]
fn first_extraction_tick_hands_out_the_worker_channel_once() {
    let mut state = fresh_state();
    state.pre_extraction_check(false);
    let action = state.extraction_update(true);
    assert!(matches!(action, ExtractionTickAction::StartWorker(_, false)));
    let action = state.extraction_update(true);
    assert!(matches!(action, ExtractionTickAction::NoAction));
}

#[test]
fn missing_redistributable_interposes_user_remediation() {
    // Extraction finishes while the dependency probe reports the runtime
    // libraries missing: the flow must stop at the remediation state, then
    // advance to launch once the probe reports them present.
    let mut state = fresh_state();
    state.pre_extraction_check(false);
    let sender = match state.extraction_update(false) {
        ExtractionTickAction::StartWorker(sender, _) => sender,
        _ => panic!("expected the worker handoff"),
    };
    sender.send(WorkerMessage::Finished).unwrap();
    // First tick consumes the terminal report (surfaced as 100 percent),
    // the next one sees completion and consults the probe.
    assert!(matches!(state.extraction_update(false), ExtractionTickAction::NoAction));
    assert_eq!(state.progress_percentage, 100);
    assert!(matches!(state.extraction_update(false), ExtractionTickAction::NoAction));
    assert!(matches!(state.progression, InstallerProgression::UserNeedsCPPRedistributable));

    let launch = state.redist_continue(true, false);
    assert!(matches!(launch, Some(LaunchType::WebView)));
    assert!(matches!(state.progression, InstallerProgression::InstallStarted(_)));
}

#[test]
fn present_redistributable_launches_directly() {
    let mut state = fresh_state();
    state.pre_extraction_check(false);
    let sender = match state.extraction_update(true) {
        ExtractionTickAction::StartWorker(sender, _) => sender,
        _ => panic!("expected the worker handoff"),
    };
    sender.send(WorkerMessage::Finished).unwrap();
    assert!(matches!(state.extraction_update(true), ExtractionTickAction::NoAction));
    let action = state.extraction_update(true);
    assert!(matches!(action, ExtractionTickAction::LaunchInstaller(LaunchType::WebView)));
    assert!(matches!(state.progression, InstallerProgression::InstallStarted(_)));
}

#[test]
fn still_missing_redistributable_blocks_until_user_override() {
    let mut state = fresh_state();
    state.pre_extraction_check(false);
    let sender = match state.extraction_update(false) {
        ExtractionTickAction::StartWorker(sender, _) => sender,
        _ => panic!("expected the worker handoff"),
    };
    sender.send(WorkerMessage::Finished).unwrap();
    state.extraction_update(false);
    state.extraction_update(false);
    assert!(state.redist_continue(false, false).is_none());
    assert!(matches!(state.progression, InstallerProgression::UserNeedsCPPRedistributable));
    assert!(state.redist_continue(false, true).is_some());
    assert!(matches!(state.progression, InstallerProgression::InstallStarted(_)));
}

#[test]
fn extraction_error_moves_to_install_failed() {
    let mut state = fresh_state();
    state.pre_extraction_check(false);
    let sender = match state.extraction_update(true) {
        ExtractionTickAction::StartWorker(sender, _) => sender,
        _ => panic!("expected the worker handoff"),
    };
    sender
        .send(WorkerMessage::Error(String::from("out of space")))
        .unwrap();
    state.extraction_update(true);
    match &state.progression {
        InstallerProgression::InstallFailed(failed) => {
            assert_eq!(failed.failure_reason, "out of space");
            assert!(!failed.console_window_displayed);
        }
        _ => panic!("expected the failed state"),
    }
    // The first failure tick forces the console window visible, later
    // ticks do not.
    assert!(state.failure_tick());
    assert!(!state.failure_tick());
}

#[test]
fn progress_reports_update_the_percentage() {
    let mut state = fresh_state();
    state.pre_extraction_check(false);
    let sender = match state.extraction_update(true) {
        ExtractionTickAction::StartWorker(sender, _) => sender,
        _ => panic!("expected the worker handoff"),
    };
    sender.send(WorkerMessage::InProgress(37)).unwrap();
    state.extraction_update(true);
    assert_eq!(state.progress_percentage, 37);
    assert!(matches!(state.progression, InstallerProgression::ExtractingPython(_)));
}

#[test]
fn successful_exit_finishes_the_run() {
    let mut state = launched_state();
    state.process_update(ProcessStatus::StillRunning);
    assert!(matches!(state.progression, InstallerProgression::InstallStarted(_)));
    state.process_update(ProcessStatus::ExitedSuccess);
    assert!(matches!(state.progression, InstallerProgression::InstallFinished));
}

#[test]
fn failed_exit_moves_to_install_failed() {
    let mut state = launched_state();
    state.process_update(ProcessStatus::ExitedFailure);
    match &state.progression {
        InstallerProgression::InstallFailed(failed) => {
            assert_eq!(failed.failure_reason, "Python Installer Failed - See Console Window");
        }
        _ => panic!("expected the failed state"),
    }
}

#[test]
fn restart_kills_the_old_process_exactly_once() {
    let mut state = launched_state();
    assert!(state.request_restart(LaunchType::TextMode));
    match &state.progression {
        InstallerProgression::InstallStarted(started) => {
            assert_eq!(started.launch_type, LaunchType::TextMode);
            assert_eq!(started.python_started_poll_count, 0);
            assert!(!started.webview_launched);
        }
        _ => panic!("expected the started state"),
    }
    state.process_update(ProcessStatus::ExitedSuccess);
    assert!(!state.request_restart(LaunchType::Browser));
}

#[test]
fn quit_kills_only_a_running_installer() {
    let mut state = launched_state();
    assert!(state.quit());
    assert!(matches!(state.progression, InstallerProgression::InstallFinished));
    assert!(!state.quit());
    let mut early = fresh_state();
    assert!(!early.quit());
    assert!(matches!(early.progression, InstallerProgression::InstallFinished));
}

#[test]
fn retry_using_temp_dir_is_flagged_outward() {
    let mut state = launched_state();
    assert!(!state.retry_using_temp_dir);
    assert!(state.request_retry_using_temp_dir());
    assert!(state.retry_using_temp_dir);
    assert!(matches!(state.progression, InstallerProgression::InstallStarted(_)));
}

#[test]
fn close_confirmation_only_once_install_started_or_failed() {
    let mut state = fresh_state();
    assert!(!state.close_needs_confirmation());
    state.pre_extraction_check(false);
    assert!(!state.close_needs_confirmation());
    let mut started = launched_state();
    assert!(started.close_needs_confirmation());
    started.process_update(ProcessStatus::ExitedFailure);
    assert!(started.close_needs_confirmation());
    started.process_update(ProcessStatus::StillRunning);
    let mut finished = launched_state();
    finished.process_update(ProcessStatus::ExitedSuccess);
    assert!(!finished.close_needs_confirmation());
}

#[test]
fn forced_reextraction_only_from_terminal_states() {
    let mut state = fresh_state();
    assert!(!state.force_reextraction());
    let mut finished = launched_state();
    finished.process_update(ProcessStatus::ExitedSuccess);
    assert!(finished.force_reextraction());
    let action = finished.extraction_update(true);
    assert!(matches!(action, ExtractionTickAction::StartWorker(_, true)));
}

#[test]
fn on_install_failed_records_the_reason() {
    let mut state = launched_state();
    state.on_install_failed(String::from("spawn failed: file not found"));
    match &state.progression {
        InstallerProgression::InstallFailed(failed) => {
            assert_eq!(failed.failure_reason, "spawn failed: file not found");
        }
        _ => panic!("expected the failed state"),
    }
}

#[test]
fn webview_waits_for_the_server_then_launches() {
    let mut state = launched_state();
    assert!(matches!(state.webview_update(false, None), WebviewAction::Wait));
    assert!(matches!(state.webview_update(true, None), WebviewAction::Wait));
    assert_eq!(state.progress_percentage, 1);
    match state.webview_update(true, Some(String::from("http://127.0.0.1:8000/i.html"))) {
        WebviewAction::Launch(url) => assert_eq!(url, "http://127.0.0.1:8000/i.html"),
        WebviewAction::Wait => panic!("expected the launch"),
    }
    assert_eq!(state.progress_percentage, 100);
    assert!(matches!(state.webview_update(true, None), WebviewAction::Wait));
}

#[test]
fn webview_falls_back_to_the_default_url() {
    let mut state = launched_state();
    for _ in 0..101 {
        assert!(matches!(state.webview_update(true, None), WebviewAction::Wait));
    }
    match state.webview_update(true, None) {
        WebviewAction::Launch(url) => {
            assert_eq!(url, "http://127.0.0.1:8000/loading_screen.html");
        }
        WebviewAction::Wait => panic!("expected the fallback launch"),
    }
}

#[test]
fn task_descriptions_follow_the_progression() {
    let mut state = fresh_state();
    assert_eq!(state.current_task_description(), "Pre-Extraction...");
    state.pre_extraction_check(false);
    assert_eq!(state.current_task_description(), "Extracting...");
    let mut started = launched_state();
    assert_eq!(started.current_task_description(), "Launching Python");
    started.process_update(ProcessStatus::ExitedSuccess);
    assert_eq!(started.current_task_description(), "Finished...");
}

/// A state that has reached the launched installer, webview mode.
fn launched_state() -> InstallerState {
    let mut state = fresh_state();
    state.pre_extraction_check(false);
    let sender = match state.extraction_update(true) {
        ExtractionTickAction::StartWorker(sender, _) => sender,
        _ => panic!("expected the worker handoff"),
    };
    sender.send(WorkerMessage::Finished).unwrap();
    state.extraction_update(true);
    let action = state.extraction_update(true);
    assert!(matches!(action, ExtractionTickAction::LaunchInstaller(_)));
    state
}
