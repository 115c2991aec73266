use transcribe_runner::supervisor::{exit_code_of, kill_pending, NextStep, RunProgress, StageEvent, WaitStatus};

fn stage(step: NextStep) -> StageEvent {
    match step {
        NextStep::Stage(s) => s,
        NextStep::Finished => panic!("run ended early"),
    }
}

#[test]
fn two_folders_that_succeed_complete_the_run() {
    let mut p = RunProgress::new(2);
    let mut stages = Vec::new();
    loop {
        match p.next_folder(false) {
            NextStep::Stage(s) => {
                stages.push(s);
                p.folder_exited(0, false);
            }
            NextStep::Finished => break,
        }
    }
    assert_eq!(stages, vec![StageEvent { index: 1, total: 2 }, StageEvent { index: 2, total: 2 }]);
    let f = p.finish.unwrap();
    assert!(f.success);
    assert_eq!(f.code, 0);
    assert_eq!(f.message, "Transcription complete.");
}

#[test]
fn second_folder_failing_ends_the_run_with_its_code() {
    let mut p = RunProgress::new(2);
    assert_eq!(stage(p.next_folder(false)), StageEvent { index: 1, total: 2 });
    p.folder_exited(0, false);
    assert_eq!(stage(p.next_folder(false)), StageEvent { index: 2, total: 2 });
    p.folder_exited(3, false);
    assert_eq!(p.completed, 1);
    let f = p.finish.unwrap();
    assert!(!f.success);
    assert_eq!(f.code, 3);
    assert_eq!(f.message, "Folder run failed (exit code 3).");
}

#[test]
fn stop_mid_folder_ends_with_the_killed_job_code() {
    let mut p = RunProgress::new(2);
    stage(p.next_folder(false));
    let code = exit_code_of(&WaitStatus::Exited(None)).unwrap();
    p.folder_exited(code, true);
    let f = p.finish.unwrap();
    assert!(!f.success);
    assert_eq!(f.code, 1);
    assert_eq!(f.message, "Stopped by user.");
}

#[test]
fn stop_between_folders_ends_with_130() {
    let mut p = RunProgress::new(3);
    stage(p.next_folder(false));
    p.folder_exited(0, false);
    assert!(matches!(p.next_folder(true), NextStep::Finished));
    let f = p.finish.unwrap();
    assert!(!f.success);
    assert_eq!(f.code, 130);
    assert_eq!(f.message, "Stopped by user before next folder.");
}

#[test]
fn spawn_failure_ends_with_code_one() {
    let mut p = RunProgress::new(2);
    stage(p.next_folder(false));
    p.spawn_failed("program not found");
    let f = p.finish.unwrap();
    assert_eq!(f.code, 1);
    assert_eq!(f.message, "Failed to start PowerShell process: program not found");
}

#[test]
fn negative_exit_code_is_reported_in_message() {
    let mut p = RunProgress::new(1);
    stage(p.next_folder(false));
    p.folder_exited(-2, false);
    assert_eq!(p.finish.unwrap().message, "Folder run failed (exit code -2).");
}

#[test]
fn wait_outcomes_map_to_exit_codes() {
    assert_eq!(exit_code_of(&WaitStatus::Running), None);
    assert_eq!(exit_code_of(&WaitStatus::Exited(Some(7))), Some(7));
    assert_eq!(exit_code_of(&WaitStatus::Exited(None)), Some(1));
    assert_eq!(exit_code_of(&WaitStatus::WaitFailed), Some(1));
    assert_eq!(exit_code_of(&WaitStatus::NoProcess), Some(1));
}

#[test]
fn unresolved_script_ends_with_code_one_and_its_error() {
    let mut p = RunProgress::new(2);
    p.script_failed("Could not locate church_transcribe_batch.ps1.");
    assert_eq!(p.completed, 0);
    let f = p.finish.unwrap();
    assert!(!f.success);
    assert_eq!(f.code, 1);
    assert_eq!(f.message, "Could not locate church_transcribe_batch.ps1.");
}

#[test]
fn kill_only_when_stop_pending_and_job_attached() {
    assert!(kill_pending(true, true));
    assert!(!kill_pending(true, false));
    assert!(!kill_pending(false, true));
    assert!(!kill_pending(false, false));
}
