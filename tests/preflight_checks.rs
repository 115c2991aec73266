use transcribe_runner::preflight::{
    build_preflight_report, checks_all_ok, output_is_usable, preflight_failure_message, whisper_target, CheckKey,
    OutputProbe, PreflightCheck, PreflightProbes, PreflightRequest, WhisperTarget,
};

fn request(folders: &[&str]) -> PreflightRequest {
    PreflightRequest {
        input_folders: folders.iter().map(|f| f.to_string()).collect(),
        output_folder: " /data/out ".to_string(),
        whisper_exe: "/opt/whisper/whisper-cli".to_string(),
        model_file: "/opt/models/ggml-small.en.bin".to_string(),
        script_path: None,
    }
}

fn good_probes(n: usize) -> PreflightProbes {
    PreflightProbes {
        shell_name: "pwsh".to_string(),
        shell_found: true,
        ffmpeg_found: true,
        input_folder_ok: vec![true; n],
        output: OutputProbe::Directory,
        write_error: None,
        whisper_found: true,
        model_is_file: true,
        script: Ok("/app/church_transcribe_batch.ps1".to_string()),
    }
}

fn keys(checks: &[PreflightCheck]) -> Vec<CheckKey> {
    checks.iter().map(|c| c.key).collect()
}

#[test]
fn all_checks_pass_gives_ready_report() {
    let r = build_preflight_report(&request(&["/a", "/b"]), &good_probes(2), 1700000000);
    assert!(r.ready);
    assert_eq!(
        keys(&r.checks),
        vec![
            CheckKey::Powershell,
            CheckKey::Ffmpeg,
            CheckKey::InputFolder,
            CheckKey::InputFolder,
            CheckKey::OutputFolder,
            CheckKey::WhisperExe,
            CheckKey::ModelFile,
            CheckKey::BatchScript,
        ]
    );
    assert!(r.checks.iter().all(|c| c.ok));
    assert_eq!(r.checks[0].detail, "Found 'pwsh' on PATH");
    assert_eq!(r.checks[2].detail, "Input folder OK: /a");
    assert_eq!(r.checks[4].detail, "Output folder exists: /data/out");
    assert_eq!(r.checks[7].detail, "Batch script resolved: /app/church_transcribe_batch.ps1");
    assert_eq!(r.checks[7].fix, "");
    assert_eq!(r.resolved_script_path, Some("/app/church_transcribe_batch.ps1".to_string()));
    assert_eq!(r.generated_at_epoch, 1700000000);
}

#[test]
fn one_failing_check_makes_report_not_ready() {
    let mut p = good_probes(1);
    p.ffmpeg_found = false;
    let r = build_preflight_report(&request(&["/a"]), &p, 0);
    assert!(!r.ready);
    assert_eq!(r.checks.len(), 7);
    assert!(!r.checks[1].ok);
    assert_eq!(r.checks[1].detail, "ffmpeg not found on PATH");
    assert_eq!(r.checks.iter().filter(|c| !c.ok).count(), 1);
    assert_eq!(checks_all_ok(&r.checks), r.ready);
}

#[test]
fn no_input_folders_is_a_failing_check_and_the_rest_still_run() {
    let r = build_preflight_report(&request(&[]), &good_probes(0), 0);
    assert!(!r.ready);
    assert_eq!(r.checks.len(), 7);
    assert_eq!(r.checks[2].key, CheckKey::InputFolders);
    assert!(!r.checks[2].ok);
    assert_eq!(r.checks[2].detail, "No input folders were provided");
    assert_eq!(r.checks[6].key, CheckKey::BatchScript);
}

#[test]
fn blank_or_missing_input_folder_fails() {
    let mut p = good_probes(2);
    p.input_folder_ok = vec![true, false];
    let r = build_preflight_report(&request(&["   ", "/gone"]), &p, 0);
    assert!(!r.checks[2].ok);
    assert_eq!(r.checks[2].detail, "Input folder missing/not directory: ");
    assert!(!r.checks[3].ok);
    assert_eq!(r.checks[3].detail, "Input folder missing/not directory: /gone");
}

#[test]
fn read_only_output_folder_fails_with_distinct_check() {
    let mut p = good_probes(1);
    p.write_error = Some("permission denied".to_string());
    let r = build_preflight_report(&request(&["/a"]), &p, 0);
    assert_eq!(r.checks[3].key, CheckKey::OutputWritable);
    assert!(!r.checks[3].ok);
    assert_eq!(r.checks[3].detail, "Cannot write to output folder /data/out: permission denied");
    assert_eq!(r.checks[4].key, CheckKey::OutputFolder);
    assert!(!r.checks[4].ok);
    assert!(!r.ready);
}

#[test]
fn output_path_that_is_a_file_fails() {
    let mut p = good_probes(1);
    p.output = OutputProbe::NotDirectory;
    p.write_error = Some("ignored".to_string());
    let r = build_preflight_report(&request(&["/a"]), &p, 0);
    assert_eq!(r.checks.len(), 7);
    assert_eq!(r.checks[3].key, CheckKey::OutputFolder);
    assert_eq!(r.checks[3].detail, "Output path is a file, not a folder: /data/out");
    assert!(!r.ready);
}

#[test]
fn output_folder_creation_outcomes() {
    let mut p = good_probes(1);
    p.output = OutputProbe::Created;
    let r = build_preflight_report(&request(&["/a"]), &p, 0);
    assert!(r.checks[3].ok);
    assert_eq!(r.checks[3].detail, "Output folder created: /data/out");
    p.output = OutputProbe::CreateFailed("denied".to_string());
    let r = build_preflight_report(&request(&["/a"]), &p, 0);
    assert!(!r.checks[3].ok);
    assert_eq!(r.checks[3].detail, "Failed to create output folder /data/out: denied");
    assert!(output_is_usable(&OutputProbe::Directory));
    assert!(!output_is_usable(&OutputProbe::NotDirectory));
}

#[test]
fn empty_fields_fail_their_checks() {
    let mut req = request(&["/a"]);
    req.output_folder = "  ".to_string();
    req.whisper_exe = "".to_string();
    req.model_file = " ".to_string();
    let mut p = good_probes(1);
    p.script = Err("Script path does not exist: /x.ps1".to_string());
    let r = build_preflight_report(&req, &p, 0);
    assert_eq!(r.checks[3].detail, "Output folder is empty");
    assert_eq!(r.checks[4].detail, "Whisper executable path is empty");
    assert_eq!(r.checks[5].detail, "Model file path is empty");
    assert_eq!(r.checks[6].detail, "Script path does not exist: /x.ps1");
    assert_eq!(r.checks[6].fix, "Set Script Path override to church_transcribe_batch.ps1.");
    assert_eq!(r.resolved_script_path, None);
    assert!(!r.ready);
}

#[test]
fn failure_message_lists_failing_checks_in_order() {
    let mut p = good_probes(1);
    p.shell_found = false;
    p.model_is_file = false;
    let r = build_preflight_report(&request(&["/a"]), &p, 0);
    assert_eq!(
        preflight_failure_message(&r.checks),
        "Preflight failed. powershell: 'pwsh' not found on PATH | modelFile: Model file missing: /opt/models/ggml-small.en.bin"
    );
}

#[test]
fn whisper_target_by_shape() {
    assert!(matches!(whisper_target("  "), WhisperTarget::Empty));
    match whisper_target(" C:\\ai\\whisper-cli.exe ") {
        WhisperTarget::File(p) => assert_eq!(p, "C:\\ai\\whisper-cli.exe"),
        _ => panic!("expected a file"),
    }
    match whisper_target("whisper-cli") {
        WhisperTarget::Command(c) => assert_eq!(c, "whisper-cli"),
        _ => panic!("expected a command"),
    }
}

#[test]
fn check_key_names() {
    assert_eq!(CheckKey::InputFolders.name(), "inputFolders");
    assert_eq!(CheckKey::OutputWritable.name(), "outputWritable");
    assert_eq!(CheckKey::BatchScript.name(), "batchScript");
}

#[test]
fn passing_checks_carry_no_remedy() {
    let r = build_preflight_report(&request(&["/a"]), &good_probes(1), 0);
    assert!(r.checks.iter().all(|c| c.ok && c.fix.is_empty()));
    let mut p = good_probes(1);
    p.shell_found = false;
    p.model_is_file = false;
    let r = build_preflight_report(&request(&["/a"]), &p, 0);
    assert_eq!(r.checks[0].fix, "Install PowerShell and ensure it is available on PATH.");
    assert_eq!(r.checks[1].fix, "");
    assert_eq!(r.checks[5].fix, "Download model file and set the correct full path.");
    assert!(r.checks.iter().all(|c| c.ok == c.fix.is_empty()));
}
