//! Launching the external installer program.
//!
//! The installer itself is a Python program inside the extracted payload.
//! It is started with a fixed argument convention: unbuffered, ignoring the
//! host's Python environment, with the script chosen by the launch mode, and
//! — when the launcher knows its own executable path — a pointer back to it,
//! so the installer can re-invoke the launcher for native file dialogs.
//! The spawn itself is operating-system work done by the hosting shell; this
//! module fixes what is handed to it.

use vstd::prelude::*;

verus! {

/// How the external installer is run.
#[derive(Debug, Clone, Copy, PartialEq, Eq, Structural)]
pub enum LaunchType {
    /// The text-interactive installer, driven through the console.
    TextMode,
    /// The web-server installer, viewed in the user's browser.
    Browser,
    /// The web-server installer, viewed in a window the launcher opens.
    WebView,
}

/// The mode-dependent part of the argument vector.
pub open spec fn base_launch_args(launch_type: LaunchType) -> Seq<Seq<char>> {
    match launch_type {
        LaunchType::TextMode => seq!["-u"@, "-E"@, "cli_interactive.py"@],
        LaunchType::Browser => seq!["-u"@, "-E"@, "main.py"@],
        LaunchType::WebView => seq!["-u"@, "-E"@, "main.py"@, "--no-launch-browser"@],
    }
}

/// The full argument vector: the mode-dependent part, then — when known —
/// the path back to this launcher's own executable.
pub open spec fn spec_launch_args(launch_type: LaunchType, launcher_path: Option<Seq<char>>) -> Seq<
    Seq<char>,
> {
    match launcher_path {
        Some(path) => base_launch_args(launch_type) + seq!["--launcher-path"@, path],
        None => base_launch_args(launch_type),
    }
}

/// Build the argument vector handed to the installer's interpreter.
pub fn python_launch_args(launch_type: LaunchType, launcher_path: &Option<String>) -> (args: Vec<
    String,
>)
    ensures
        args.deep_view() == spec_launch_args(launch_type, launcher_path.deep_view()),
{
    let mut args: Vec<String> = Vec::new();
    args.push(String::from_str("-u"));
    args.push(String::from_str("-E"));
    match launch_type {
        LaunchType::TextMode => {
            args.push(String::from_str("cli_interactive.py"));
        },
        LaunchType::Browser => {
            args.push(String::from_str("main.py"));
        },
        LaunchType::WebView => {
            args.push(String::from_str("main.py"));
            args.push(String::from_str("--no-launch-browser"));
        },
    }
    match launcher_path {
        Some(path) => {
            args.push(String::from_str("--launcher-path"));
            args.push(path.clone());
        },
        None => {},
    }
    proof {
        assert(args.deep_view() =~= spec_launch_args(launch_type, launcher_path.deep_view()));
    }
    args
}

/// The two top-level flows the launcher can run.
pub enum TopLevelFlow {
    /// The graphical installer window.
    Graphical,
    /// The console fallback.  It is used when the GUI is disabled, and as
    /// the degraded mode when no descendant-kill job could be registered:
    /// the console flow leaves the terminal window open, and its closing
    /// reaps any orphaned grandchild processes.
    ConsoleFallback,
}

/// Which top-level flow to run, given whether the GUI was disabled and
/// whether the descendant-kill job registered.
pub fn choose_top_level_flow(gui_disabled: bool, job_registered: bool) -> (flow: TopLevelFlow)
    ensures
        (flow is Graphical) == (!gui_disabled && job_registered),
{
    if !gui_disabled && job_registered {
        TopLevelFlow::Graphical
    } else {
        TopLevelFlow::ConsoleFallback
    }
}

} // verus!
