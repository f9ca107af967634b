//! Installation orchestration engine for a desktop installer launcher.
//!
//! The launcher unpacks a bundled payload archive to local disk and then hands
//! control to an external installer program.  This crate holds the verified
//! core of that flow: the progress accounting of the streaming decompressor,
//! the background archive extraction pipeline with its non-blocking polling
//! interface, the single-instance lock, and the installer progression state
//! machine that sequences pre-checks, extraction, dependency checks, process
//! launch and failure handling.

pub mod crash;
pub mod dialogs;
pub mod extractor;
pub mod instance_lock;
pub mod launch;
pub mod progress;
pub mod progression;
pub mod timer;
pub mod windows_paths;
pub mod version;
pub mod webview;
pub mod worker;
