use transcribe_runner::preflight::{CheckKey, PreflightCheck, PreflightReport};
use transcribe_runner::runner::{pause_flag_path, PauseAction, PauseError, RejectReason, RunnerState, RunnerStatus};

fn report(ready: bool) -> PreflightReport {
    PreflightReport {
        ready,
        checks: vec![PreflightCheck {
            key: CheckKey::Ffmpeg,
            ok: ready,
            detail: "ffmpeg not found on PATH".to_string(),
            fix: "Install ffmpeg".to_string(),
        }],
        resolved_script_path: None,
        generated_at_epoch: 0,
    }
}

#[test]
fn start_without_folders_is_rejected_and_stays_idle() {
    let mut s = RunnerState::new();
    let e = s.start(0, &report(true), "/out/.transcribe.pause".to_string()).unwrap_err();
    assert_eq!(e.reason, RejectReason::NoInputFolders);
    assert_eq!(e.message, "At least one input folder is required.");
    assert!(!s.running);
    assert_eq!(s.pause_flag, None);
}

#[test]
fn second_start_is_rejected_as_already_running() {
    let mut s = RunnerState::new();
    assert!(s.start(2, &report(true), "/out/.transcribe.pause".to_string()).is_ok());
    let e = s.start(1, &report(true), "/other/.transcribe.pause".to_string()).unwrap_err();
    assert_eq!(e.reason, RejectReason::AlreadyRunning);
    assert_eq!(e.message, "A transcription run is already in progress.");
    assert!(s.running);
    assert_eq!(s.pause_flag, Some("/out/.transcribe.pause".to_string()));
}

#[test]
fn start_with_failed_preflight_is_rejected() {
    let mut s = RunnerState::new();
    let e = s.start(1, &report(false), "/out/.transcribe.pause".to_string()).unwrap_err();
    assert_eq!(e.reason, RejectReason::PreflightFailed);
    assert_eq!(e.message, "Preflight failed. ffmpeg: ffmpeg not found on PATH");
    assert!(!s.running);
}

#[test]
fn accepted_start_clears_stop_and_records_flag() {
    let mut s = RunnerState::new();
    s.stop_requested = true;
    s.start(1, &report(true), "/out/.transcribe.pause".to_string()).unwrap();
    assert_eq!(s.status(false), RunnerStatus { running: true, paused: false, stop_requested: false });
}

#[test]
fn pause_then_status_follows_flag_file() {
    let mut s = RunnerState::new();
    s.start(1, &report(true), "/out/.transcribe.pause".to_string()).unwrap();
    match s.toggle_pause(true).unwrap() {
        PauseAction::CreateFlag(p) => assert_eq!(p, "/out/.transcribe.pause"),
        PauseAction::RemoveFlag(_) => panic!("expected create"),
    }
    assert!(s.status(true).paused);
    assert!(!s.status(false).paused);
    match s.toggle_pause(false).unwrap() {
        PauseAction::RemoveFlag(p) => assert_eq!(p, "/out/.transcribe.pause"),
        PauseAction::CreateFlag(_) => panic!("expected remove"),
    }
    assert!(!s.status(false).paused);
}

#[test]
fn pause_errors() {
    let s = RunnerState::new();
    assert_eq!(s.toggle_pause(true).err(), Some(PauseError::NotRunning));
    assert_eq!(PauseError::NotRunning.message(), "No active run to pause/resume.");
    let s = RunnerState { running: true, stop_requested: false, pause_flag: None };
    assert_eq!(s.toggle_pause(false).err(), Some(PauseError::FlagPathMissing));
    assert_eq!(PauseError::FlagPathMissing.message(), "Pause flag path not initialized.");
}

#[test]
fn stop_when_idle_is_a_no_op() {
    let mut s = RunnerState::new();
    assert!(!s.request_stop());
    assert_eq!(s.status(true), RunnerStatus { running: false, paused: false, stop_requested: false });
}

#[test]
fn stop_while_running_sets_stop_requested() {
    let mut s = RunnerState::new();
    s.start(1, &report(true), "/out/.transcribe.pause".to_string()).unwrap();
    assert!(s.request_stop());
    assert!(s.status(false).stop_requested);
    assert!(s.running);
}

#[test]
fn finish_resets_status_and_allows_restart() {
    let mut s = RunnerState::new();
    s.start(2, &report(true), "/out/.transcribe.pause".to_string()).unwrap();
    s.request_stop();
    assert_eq!(s.finish_run(), Some("/out/.transcribe.pause".to_string()));
    assert_eq!(s.status(true), RunnerStatus { running: false, paused: false, stop_requested: false });
    assert!(s.start(1, &report(true), "/out2/.transcribe.pause".to_string()).is_ok());
}

#[test]
fn pause_flag_lies_in_the_trimmed_output_folder() {
    let expected = std::path::Path::new("/data/out").join(".transcribe.pause").display().to_string();
    assert_eq!(pause_flag_path("  /data/out "), expected);
}
